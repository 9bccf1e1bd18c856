//! Reclaiming docking zones whose tab container has become empty.
use vstd::prelude::*;

use crate::layout::{
    is_zone, live, node_ok, removable, tabs_of, wf_nodes, zone_of, zone_removed, Layout, Node, NodeKind,
};

verus! {

/// The docking zone that node `j` belongs to: itself for a zone, its parent
/// for a tab container or a highlight.
pub open spec fn owner(s: Seq<Node>, j: int) -> int {
    match s[j].kind {
        NodeKind::Zone(_) => j,
        NodeKind::Region => -1,
        _ => match s[j].parent {
            Some(p) => p as int,
            None => -1,
        },
    }
}

/// Node `j` goes when the removable zones of `s` are removed.
pub open spec fn doomed(s: Seq<Node>, j: int) -> bool {
    live(s, j) && removable(s, owner(s, j))
}

/// `s` is `s0` with the removable zones below index `i` removed.
pub open spec fn cleanup_inv(s0: Seq<Node>, s: Seq<Node>, i: int) -> bool {
    &&& s.len() == s0.len()
    &&& forall|j: int| 0 <= j < s.len() ==> #[trigger] s[j] == Node {
        alive: s0[j].alive && !(doomed(s0, j) && owner(s0, j) < i),
        children: s[j].children,
        ..s0[j]
    }
    &&& forall|j: int| live(s0, j) ==> #[trigger] s[j].children@ == s0[j].children@.filter(kept(s0, i))
    &&& forall|z: int| z < i ==> !removable(s, z)
}

/// The children that stay once the removable zones below index `i` are gone.
pub open spec fn kept(s0: Seq<Node>, i: int) -> spec_fn(usize) -> bool {
    |c: usize| !(removable(s0, c as int) && c < i)
}

proof fn lemma_filter_all(a: Seq<usize>, f: spec_fn(usize) -> bool)
    requires
        forall|k: int| 0 <= k < a.len() ==> f(#[trigger] a[k]),
    ensures
        a.filter(f) == a,
    decreases a.len(),
{
    reveal(Seq::filter);
    if a.len() > 0 {
        lemma_filter_all(a.drop_last(), f);
        assert(a.drop_last().push(a.last()) =~= a);
    }
}

proof fn lemma_filter_same_off(a: Seq<usize>, f: spec_fn(usize) -> bool, g: spec_fn(usize) -> bool, x: usize)
    requires
        forall|y: usize| y != x ==> #[trigger] f(y) == g(y),
        !a.contains(x),
    ensures
        a.filter(f) == a.filter(g),
    decreases a.len(),
{
    reveal(Seq::filter);
    if a.len() > 0 {
        assert(a[a.len() - 1] == a.last());
        assert(!a.drop_last().contains(x)) by {
            if a.drop_last().contains(x) {
                let k = choose|k: int| 0 <= k < a.drop_last().len() && a.drop_last()[k] == x;
                assert(a[k] == x);
            }
        }
        lemma_filter_same_off(a.drop_last(), f, g, x);
    }
}

proof fn lemma_filter_drop_one(a: Seq<usize>, f: spec_fn(usize) -> bool, g: spec_fn(usize) -> bool, x: usize)
    requires
        forall|y: usize| y != x ==> #[trigger] f(y) == g(y),
        f(x) && !g(x),
        a.contains(x),
        a.no_duplicates(),
    ensures
        exists|m: int| 0 <= m < a.filter(f).len() && a.filter(f)[m] == x && a.filter(g) == a.filter(f).remove(m),
    decreases a.len(),
{
    reveal(Seq::filter);
    let d = a.drop_last();
    let l = a.last();
    assert(a[a.len() - 1] == l);
    if l == x {
        assert(!d.contains(x)) by {
            if d.contains(x) {
                let k = choose|k: int| 0 <= k < d.len() && d[k] == x;
                assert(a[k] == x);
            }
        }
        lemma_filter_same_off(d, f, g, x);
        let m = d.filter(f).len() as int;
        assert(a.filter(f)[m] == x);
        assert(a.filter(g) =~= a.filter(f).remove(m));
    } else {
        assert(d.contains(x)) by {
            let k = choose|k: int| 0 <= k < a.len() && a[k] == x;
            assert(d[k] == x);
        }
        assert(d.no_duplicates()) by {
            assert forall|p: int, q: int| 0 <= p < d.len() && 0 <= q < d.len() && p != q implies d[p] != d[q] by {
                assert(d[p] == a[p] && d[q] == a[q]);
            }
        }
        lemma_filter_drop_one(d, f, g, x);
        let m = choose|m: int| 0 <= m < d.filter(f).len() && d.filter(f)[m] == x && d.filter(g) == d.filter(f).remove(m);
        if f(l) {
            assert(a.filter(f)[m] == x);
            assert(a.filter(g) =~= a.filter(f).remove(m));
        } else {
            assert(a.filter(f)[m] == x);
        }
    }
}

proof fn lemma_owner_of_zone_parts(s: Seq<Node>, z: int, j: int)
    requires
        wf_nodes(s),
        is_zone(s, z),
        live(s, j),
        owner(s, j) == z,
    ensures
        j == z || j == zone_of(s[z]).tab_container as int || j == zone_of(s[z]).zone_highlight as int,
{
    assert(node_ok(s, j));
}

proof fn lemma_cleanup_skip(s0: Seq<Node>, s: Seq<Node>, i: int)
    requires
        wf_nodes(s0),
        0 <= i,
        cleanup_inv(s0, s, i),
        !removable(s, i),
    ensures
        cleanup_inv(s0, s, i + 1),
{
    if removable(s0, i) {
        assert(s[i] == Node { children: s[i].children, ..s0[i] });
        assert(owner(s0, i) == i);
        let tc = zone_of(s0[i]).tab_container as int;
        assert(live(s0, i));
        assert(node_ok(s0, i));
        assert(s0[i].children@[0] == tc as usize);
        assert(live(s0, tc));
        assert(s[tc] == Node { children: s[tc].children, ..s0[tc] });
        assert(false);
    }
    assert forall|j: int| 0 <= j < s.len() implies #[trigger] s[j] == Node {
        alive: s0[j].alive && !(doomed(s0, j) && owner(s0, j) < i + 1),
        children: s[j].children,
        ..s0[j]
    } by {
        assert(s[j] == Node {
            alive: s0[j].alive && !(doomed(s0, j) && owner(s0, j) < i),
            children: s[j].children,
            ..s0[j]
        });
    }
    assert(kept(s0, i) =~= kept(s0, i + 1));
}

proof fn lemma_cleanup_remove(s0: Seq<Node>, s: Seq<Node>, s2: Seq<Node>, i: int, p: int, idx: int)
    requires
        wf_nodes(s0),
        wf_nodes(s),
        0 <= i,
        cleanup_inv(s0, s, i),
        removable(s, i),
        zone_removed(s, s2, p, i, idx),
    ensures
        cleanup_inv(s0, s2, i + 1),
{
    let tc = zone_of(s[i]).tab_container as int;
    let hl = zone_of(s[i]).zone_highlight as int;
    assert(s[i] == Node { children: s[i].children, ..s0[i] });
    assert(live(s0, i));
    assert(node_ok(s0, i));
    assert(s0[i].children@[0] == tc as usize);
    assert(s0[i].children@[1] == hl as usize);
    assert(live(s0, tc) && live(s0, hl));
    assert(node_ok(s0, tc) && node_ok(s0, hl));
    assert(s[tc] == Node { children: s[tc].children, ..s0[tc] });
    assert(removable(s0, i));
    assert(owner(s0, tc) == i);
    assert(owner(s0, hl) == i);
    assert forall|j: int| 0 <= j < s2.len() implies #[trigger] s2[j] == Node {
        alive: s0[j].alive && !(doomed(s0, j) && owner(s0, j) < i + 1),
        children: s2[j].children,
        ..s0[j]
    } by {
        assert(s[j] == Node {
            alive: s0[j].alive && !(doomed(s0, j) && owner(s0, j) < i),
            children: s[j].children,
            ..s0[j]
        });
        if j != i && j != tc && j != hl && live(s0, j) && owner(s0, j) == i {
            lemma_owner_of_zone_parts(s0, i, j);
        }
    }
    assert forall|j: int| live(s0, j) implies #[trigger] s2[j].children@ == s0[j].children@.filter(kept(s0, i + 1)) by {
        let a = s0[j].children@;
        assert(s[j].children@ == a.filter(kept(s0, i)));
        assert(node_ok(s0, j));
        if j == p {
            assert(s[p].children@[idx] == i as usize);
            assert(a.contains(i as usize)) by {
                assert(node_ok(s0, i));
                assert(s[i].parent == s0[i].parent);
            }
            lemma_filter_drop_one(a, kept(s0, i), kept(s0, i + 1), i as usize);
            let m = choose|m: int| 0 <= m < a.filter(kept(s0, i)).len() && a.filter(kept(s0, i))[m] == i as usize
                && a.filter(kept(s0, i + 1)) == a.filter(kept(s0, i)).remove(m);
            assert(live(s, p));
            assert(node_ok(s, p));
            assert(m == idx);
        } else {
            assert(s2[j].children == s[j].children);
            assert(!a.contains(i as usize)) by {
                if a.contains(i as usize) {
                    let k = choose|k: int| 0 <= k < a.len() && a[k] == i as usize;
                    assert(a[k] == i as usize);
                    assert(s0[i].parent == Some(j as usize));
                    assert(s[i].parent == s0[i].parent);
                }
            }
            lemma_filter_same_off(a, kept(s0, i), kept(s0, i + 1), i as usize);
        }
    }
    assert forall|z: int| z < i + 1 implies !removable(s2, z) by {
        if z < i && removable(s2, z) {
            let tz = zone_of(s2[z]).tab_container as int;
            assert(s2[z].kind == s[z].kind && (s2[z].alive ==> s[z].alive));
            assert(live(s, tz)) by {
                assert(live(s, z));
                assert(node_ok(s, z));
                assert(s[z].children@[0] == tz as usize);
            }
            assert(s2[tz].kind == s[tz].kind);
            assert(removable(s, z));
        }
    }
}

/// Whether the cleanup pass has anything to look at: only when a tab was
/// removed since the last pass can a tab container have become empty.
pub fn should_process_empty_docking_zones(removed_tabs: usize) -> (r: bool)
    ensures
        r == (removed_tabs > 0),
{
    removed_tabs > 0
}

/// `new` is `old` after one cleanup pass: exactly the zones whose tab
/// container is empty and marked for auto-removal are gone, with their tab
/// containers and highlights, and out of their parents' children, the other
/// children keeping their order; nothing else changed. With nothing to
/// remove, nothing changed at all.
pub open spec fn cleanup_result(old: Seq<Node>, new: Seq<Node>) -> bool {
    &&& cleanup_inv(old, new, old.len() as int)
    &&& forall|z: int| !removable(new, z)
    &&& (forall|z: int| !removable(old, z)) ==> new == old
}

/// A second cleanup pass right after a first changes nothing.
pub proof fn lemma_cleanup_idempotent(a: Seq<Node>, b: Seq<Node>, c: Seq<Node>)
    requires
        cleanup_result(a, b),
        cleanup_result(b, c),
    ensures
        c == b,
{
}

impl Layout {
    /// The cleanup pass: removes every docking zone whose tab container holds
    /// no tab and is marked for auto-removal, with everything it owns.
    pub fn remove_empty_docking_zones(&mut self)
        requires
            old(self).wf(),
        ensures
            final(self).wf(),
            cleanup_result(old(self).nodes(), final(self).nodes()),
    {
        let ghost s0 = self.nodes();
        let n = self.len();
        let mut i: usize = 0;
        proof {
            assert forall|j: int| 0 <= j < s0.len() implies #[trigger] s0[j] == Node {
                alive: s0[j].alive && !(doomed(s0, j) && owner(s0, j) < 0),
                children: s0[j].children,
                ..s0[j]
            } by {}
            assert forall|j: int| live(s0, j) implies #[trigger] s0[j].children@ == s0[j].children@.filter(
                kept(s0, 0),
            ) by {
                lemma_filter_all(s0[j].children@, kept(s0, 0));
            }
        }
        while i < n
            invariant
                self.wf(),
                wf_nodes(s0),
                i <= n,
                n == s0.len(),
                cleanup_inv(s0, self.nodes(), i as int),
                (forall|z: int| !removable(s0, z)) ==> self.nodes() == s0,
            decreases n - i,
        {
            if self.is_removable_zone(i) {
                let ghost s1 = self.nodes();
                self.remove_zone(i);
                proof {
                    let (p, idx) = choose|p: int, idx: int| zone_removed(s1, self.nodes(), p, i as int, idx);
                    lemma_cleanup_remove(s0, s1, self.nodes(), i as int, p, idx);
                }
            } else {
                proof {
                    lemma_cleanup_skip(s0, self.nodes(), i as int);
                }
            }
            i = i + 1;
        }
        proof {
            let s = self.nodes();
            assert forall|z: int| !removable(s, z) by {
                if z >= n {
                    assert(!live(s, z));
                }
            }
        }
    }
}

} // verus!
