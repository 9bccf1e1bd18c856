//! Splitting a docking zone: the tree edit that makes room for a new zone
//! beside an existing one.
use vstd::prelude::*;

use crate::layout::{
    cross_of, DockError, is_region, is_zone, lemma_zone_facts, Layout, Node, NodeKind, SizedZone,
    SizedZoneConfig, FlexDirection, HALF_SIZE, FULL_SIZE, wf_nodes,
};

verus! {

/// Where the new zone goes, seen on screen: above or below the target
/// (vertically), or to its left or right (horizontally).
#[derive(Clone, Copy, Debug, PartialEq, Eq, Structural)]
pub enum DockingZoneSplitDirection {
    VerticallyBefore,
    VerticallyAfter,
    HorizontallyBefore,
    HorizontallyAfter,
}

/// For a target whose parent lays out its children in `layout`, whether a
/// split in `direction` needs a new wrapper region (the split runs across the
/// parent's axis: vertically in a row, horizontally in a column), and whether
/// the new zone goes before the target among its siblings (in the parent, or
/// in the wrapper, which lays out along the other axis in the same sense).
/// Reversed layouts swap before and after, so that the new zone lands on the
/// same side on screen.
pub open spec fn split_plan_of(layout: FlexDirection, direction: DockingZoneSplitDirection) -> (bool, bool) {
    match layout {
        FlexDirection::Row => match direction {
            DockingZoneSplitDirection::VerticallyBefore => (true, true),
            DockingZoneSplitDirection::VerticallyAfter => (true, false),
            DockingZoneSplitDirection::HorizontallyBefore => (false, true),
            DockingZoneSplitDirection::HorizontallyAfter => (false, false),
        },
        FlexDirection::Column => match direction {
            DockingZoneSplitDirection::VerticallyBefore => (false, true),
            DockingZoneSplitDirection::VerticallyAfter => (false, false),
            DockingZoneSplitDirection::HorizontallyBefore => (true, true),
            DockingZoneSplitDirection::HorizontallyAfter => (true, false),
        },
        FlexDirection::RowReverse => match direction {
            DockingZoneSplitDirection::VerticallyBefore => (true, false),
            DockingZoneSplitDirection::VerticallyAfter => (true, true),
            DockingZoneSplitDirection::HorizontallyBefore => (false, false),
            DockingZoneSplitDirection::HorizontallyAfter => (false, true),
        },
        FlexDirection::ColumnReverse => match direction {
            DockingZoneSplitDirection::VerticallyBefore => (false, false),
            DockingZoneSplitDirection::VerticallyAfter => (false, true),
            DockingZoneSplitDirection::HorizontallyBefore => (true, false),
            DockingZoneSplitDirection::HorizontallyAfter => (true, true),
        },
    }
}

pub fn split_plan(layout: FlexDirection, direction: DockingZoneSplitDirection) -> (r: (bool, bool))
    ensures
        r == split_plan_of(layout, direction),
{
    match layout {
        FlexDirection::Row => match direction {
            DockingZoneSplitDirection::VerticallyBefore => (true, true),
            DockingZoneSplitDirection::VerticallyAfter => (true, false),
            DockingZoneSplitDirection::HorizontallyBefore => (false, true),
            DockingZoneSplitDirection::HorizontallyAfter => (false, false),
        },
        FlexDirection::Column => match direction {
            DockingZoneSplitDirection::VerticallyBefore => (false, true),
            DockingZoneSplitDirection::VerticallyAfter => (false, false),
            DockingZoneSplitDirection::HorizontallyBefore => (true, true),
            DockingZoneSplitDirection::HorizontallyAfter => (true, false),
        },
        FlexDirection::RowReverse => match direction {
            DockingZoneSplitDirection::VerticallyBefore => (true, false),
            DockingZoneSplitDirection::VerticallyAfter => (true, true),
            DockingZoneSplitDirection::HorizontallyBefore => (false, false),
            DockingZoneSplitDirection::HorizontallyAfter => (false, true),
        },
        FlexDirection::ColumnReverse => match direction {
            DockingZoneSplitDirection::VerticallyBefore => (false, false),
            DockingZoneSplitDirection::VerticallyAfter => (false, true),
            DockingZoneSplitDirection::HorizontallyBefore => (true, false),
            DockingZoneSplitDirection::HorizontallyAfter => (true, true),
        },
    }
}

/// A request to split a docking zone, optionally docking a panel into the
/// new zone at once.
#[derive(Clone, Copy, Debug, PartialEq, Eq, Structural)]
pub struct DockingZoneSplit {
    pub docking_zone: usize,
    pub direction: DockingZoneSplitDirection,
    pub panel_to_dock: Option<u64>,
}

pub open spec fn size_of(n: Node) -> int {
    match n.sized {
        Some(z) => z.size as int,
        None => 0,
    }
}

/// The outcome of splitting target `t` of `old` into `new`, with the new
/// docking zone at index `z`.
pub open spec fn split_result(old: Seq<Node>, new: Seq<Node>, split: DockingZoneSplit, z: int) -> bool {
    let t = split.docking_zone as int;
    let p = old[t].parent->Some_0 as int;
    let c0 = old[p].children@;
    let idx = c0.index_of(t as usize);
    let sz = old[t].sized->Some_0;
    let plan = split_plan_of(old[p].direction, split.direction);
    let inject = plan.0;
    let before = plan.1;
    let marked = split.panel_to_dock is Some;
    &&& forall|i: int| 0 <= i < old.len() && i != p && i != t ==> #[trigger] new[i] == old[i]
    &&& new[t].alive && new[t].kind == old[t].kind && new[t].children@ == old[t].children@
    &&& new[p].alive && new[p].kind == old[p].kind && new[p].parent == old[p].parent
    &&& new[p].sized == old[p].sized
    &&& if inject {
        let w = old.len() as int;
        &&& z == w + 1
        &&& new.len() == old.len() + 4
        &&& new[p].children@ == c0.update(idx, w as usize)
        &&& new[w].alive && new[w].kind is Region && new[w].parent == Some(p as usize)
        &&& new[w].sized == Some(sz)
        &&& new[w].direction == cross_of(old[p].direction)
        &&& new[w].children@ == (if before {
            seq![z as usize, t as usize]
        } else {
            seq![t as usize, z as usize]
        })
        &&& new[t].parent == Some(w as usize)
        &&& new[t].sized == Some(SizedZone { size: HALF_SIZE, min_size: sz.min_size })
        &&& Layout::fresh_zone(
            new,
            z,
            w,
            SizedZoneConfig { size: HALF_SIZE, min_size: sz.min_size },
            marked,
            split.panel_to_dock,
        )
    } else {
        &&& z == old.len()
        &&& new.len() == old.len() + 3
        &&& new[p].children@ == c0.insert(if before { idx } else { idx + 1 }, z as usize)
        &&& new[t].parent == old[t].parent
        &&& new[t].sized == Some(SizedZone { size: (sz.size - sz.size / 2) as u32, min_size: sz.min_size })
        &&& Layout::fresh_zone(
            new,
            z,
            p,
            SizedZoneConfig { size: sz.size / 2, min_size: sz.min_size },
            marked,
            split.panel_to_dock,
        )
    }
}

/// Sum of the sizes of the nodes `ids` of `s`.
pub open spec fn sum_sizes(s: Seq<Node>, ids: Seq<usize>) -> int
    decreases ids.len(),
{
    if ids.len() == 0 {
        0
    } else {
        sum_sizes(s, ids.drop_last()) + size_of(s[ids.last() as int])
    }
}

proof fn lemma_sum_insert(s: Seq<Node>, ids: Seq<usize>, k: int, v: usize)
    requires
        0 <= k <= ids.len(),
    ensures
        sum_sizes(s, ids.insert(k, v)) == sum_sizes(s, ids) + size_of(s[v as int]),
    decreases ids.len(),
{
    let r = ids.insert(k, v);
    if k == ids.len() {
        assert(r.drop_last() =~= ids);
    } else {
        assert(r.drop_last() =~= ids.drop_last().insert(k, v));
        lemma_sum_insert(s, ids.drop_last(), k, v);
    }
}

proof fn lemma_sum_update(s: Seq<Node>, ids: Seq<usize>, k: int, v: usize)
    requires
        0 <= k < ids.len(),
    ensures
        sum_sizes(s, ids.update(k, v)) == sum_sizes(s, ids) - size_of(s[ids[k] as int]) + size_of(
            s[v as int],
        ),
    decreases ids.len(),
{
    let r = ids.update(k, v);
    if k == ids.len() - 1 {
        assert(r.drop_last() =~= ids.drop_last());
    } else {
        assert(r.drop_last() =~= ids.drop_last().update(k, v));
        lemma_sum_update(s, ids.drop_last(), k, v);
    }
}

proof fn lemma_sum_change_one(s1: Seq<Node>, s2: Seq<Node>, ids: Seq<usize>, t: usize)
    requires
        ids.no_duplicates(),
        forall|k: int| 0 <= k < ids.len() && ids[k] != t ==> size_of(s1[#[trigger] ids[k] as int]) == size_of(s2[ids[k] as int]),
    ensures
        sum_sizes(s2, ids) == sum_sizes(s1, ids) + (if ids.contains(t) {
            size_of(s2[t as int]) - size_of(s1[t as int])
        } else {
            0
        }),
    decreases ids.len(),
{
    if ids.len() > 0 {
        let d = ids.drop_last();
        assert forall|k: int| 0 <= k < d.len() && d[k] != t implies size_of(s1[#[trigger] d[k] as int]) == size_of(s2[d[k] as int]) by {
            assert(d[k] == ids[k]);
        }
        lemma_sum_change_one(s1, s2, d, t);
        if ids.last() == t {
            assert(ids[ids.len() - 1] == t);
            assert(!d.contains(t));
            assert(ids.contains(t));
        } else {
            assert(ids.contains(t) == d.contains(t)) by {
                if ids.contains(t) {
                    let k = choose|k: int| 0 <= k < ids.len() && ids[k] == t;
                    assert(d[k] == t);
                }
            }
        }
    }
}

/// The parent of the target of `split` in `s`.
pub open spec fn split_parent(s: Seq<Node>, split: DockingZoneSplit) -> int {
    s[split.docking_zone as int].parent->Some_0 as int
}

/// Splitting a zone keeps the sum of the sizes of its parent's children: the
/// target and the new zone share the target's size, or a wrapper region takes
/// the target's place with its size. The two children of such a wrapper fill
/// it exactly. This holds for every split direction and every layout direction.
pub proof fn lemma_split_conserves_size(
    before: Layout,
    after: Layout,
    split: DockingZoneSplit,
    z: usize,
)
    requires
        before.wf(),
        is_zone(before.nodes(), split.docking_zone as int),
        split_result(before.nodes(), after.nodes(), split, z as int),
    ensures
        sum_sizes(after.nodes(), after.nodes()[split_parent(before.nodes(), split)].children@)
            == sum_sizes(before.nodes(), before.nodes()[split_parent(before.nodes(), split)].children@),
        split_plan_of(before.nodes()[split_parent(before.nodes(), split)].direction, split.direction).0
            ==> sum_sizes(after.nodes(), after.nodes()[before.nodes().len() as int].children@) == FULL_SIZE,
{
    let s0 = before.nodes();
    let s = after.nodes();
    let t = split.docking_zone;
    lemma_zone_facts(s0, t as int);
    let p = split_parent(s0, split);
    let c0 = s0[p].children@;
    let idx = c0.index_of(t);
    assert(c0[idx] == t);
    assert forall|k: int| 0 <= k < c0.len() && c0[k] != t implies size_of(s0[#[trigger] c0[k] as int]) == size_of(s[c0[k] as int]) by {
        if c0[k] as int != p {
            crate::layout::lemma_child_in_range(s0, p, k);
            assert(s[c0[k] as int] == s0[c0[k] as int]);
        }
    }
    lemma_sum_change_one(s0, s, c0, t);
    let plan = split_plan_of(s0[p].direction, split.direction);
    if plan.0 {
        let w = s0.len() as int;
        lemma_sum_update(s, c0, idx, w as usize);
        let cw = s[w].children@;
        reveal_with_fuel(sum_sizes, 3);
        assert(cw.drop_last().drop_last() =~= Seq::<usize>::empty());
    } else {
        let j = if plan.1 { idx } else { idx + 1 };
        lemma_sum_insert(s, c0, j, z);
    }
}

impl DockingZoneSplit {
    /// Splits the target zone. Either the new zone becomes a sibling of the
    /// target, taking half of its size, or, where the split runs across the
    /// parent's axis, a new region takes the target's place and size and holds
    /// the target and the new zone at half each. A panel to dock goes into the
    /// new zone, whose tab container is then marked for removal once empty.
    /// Returns the new zone; fails, changing nothing, if the target is not a
    /// docking zone.
    pub fn apply(self, layout: &mut Layout) -> (r: Result<usize, DockError>)
        requires
            old(layout).wf(),
            old(layout).nodes().len() + 4 <= usize::MAX,
        ensures
            final(layout).wf(),
            r is Err <==> !is_zone(old(layout).nodes(), self.docking_zone as int),
            r is Err ==> final(layout).nodes() == old(layout).nodes(),
            r matches Ok(z) ==> split_result(old(layout).nodes(), final(layout).nodes(), self, z as int),
    {
        let t = self.docking_zone;
        if !layout.is_docking_zone(t) {
            return Err(DockError::InvalidTarget);
        }
        let ghost s0 = layout.nodes();
        proof {
            lemma_zone_facts(s0, t as int);
        }
        let p = match layout.parent_of(t) {
            Some(p) => p,
            None => {
                return Err(DockError::InvalidTarget);
            },
        };
        let sized = match layout.sized_of(t) {
            Some(z) => z,
            None => {
                return Err(DockError::InvalidTarget);
            },
        };
        let children = layout.children_of(p);
        let mut idx: usize = 0;
        while idx < children.len() && children[idx] != t
            invariant
                children@ == s0[p as int].children@,
                children@.contains(t),
                idx <= children@.len(),
                forall|k: int| 0 <= k < idx ==> children@[k] != t,
            decreases children@.len() - idx,
        {
            idx = idx + 1;
        }
        proof {
            if idx == children@.len() {
                let k = choose|k: int| 0 <= k < children@.len() && children@[k] == t;
                assert(children@[k] == t);
            }
            assert(s0[p as int].children@.index_of(t) == idx as int);
        }
        let (inject, before) = split_plan(layout.direction_of(p), self.direction);
        let marked = self.panel_to_dock.is_some();
        if inject {
            let w = layout.wrap_zone(p, t, idx);
            let pos: usize = if before { 0 } else { 1 };
            let config = SizedZoneConfig { size: HALF_SIZE, min_size: sized.min_size };
            let ghost s1 = layout.nodes();
            let z = layout.spawn_docking_zone(w, pos, config, marked, self.panel_to_dock);
            let ghost s2 = layout.nodes();
            layout.set_size(t, HALF_SIZE);
            proof {
                let s3 = layout.nodes();
                assert(s3[z as int] == s2[z as int]);
                assert(s3[z + 1] == s2[z + 1]);
                assert(s3[z + 2] == s2[z + 2]);
                assert(s3[w as int] == s2[w as int]);
                assert(s3[p as int] == s2[p as int]);
                assert(s2[p as int] == s1[p as int]);
                assert(s2[t as int] == s1[t as int]);
                assert(s3[w as int].children@ =~= (if before { seq![z, t] } else { seq![t, z] }));
                assert forall|i: int| 0 <= i < s0.len() && i != p && i != t implies #[trigger] s3[i] == s0[i] by {
                    assert(s3[i] == s2[i]);
                    assert(s2[i] == s1[i]);
                }
                assert(Layout::fresh_zone(s3, z as int, w as int, config, marked, self.panel_to_dock));
            }
            Ok(z)
        } else {
            let half = sized.size / 2;
            let pos: usize = if before { idx } else { idx + 1 };
            let config = SizedZoneConfig { size: half, min_size: sized.min_size };
            let z = layout.spawn_docking_zone(p, pos, config, marked, self.panel_to_dock);
            let ghost s2 = layout.nodes();
            layout.set_size(t, sized.size - half);
            proof {
                let s3 = layout.nodes();
                assert(s3[z as int] == s2[z as int]);
                assert(s3[z + 1] == s2[z + 1]);
                assert(s3[z + 2] == s2[z + 2]);
                assert(s3[p as int] == s2[p as int]);
                assert(s2[t as int] == s0[t as int]);
                assert forall|i: int| 0 <= i < s0.len() && i != p && i != t implies #[trigger] s3[i] == s0[i] by {
                    assert(s3[i] == s2[i]);
                    assert(s2[i] == s0[i]);
                }
                assert(Layout::fresh_zone(s3, z as int, p as int, config, marked, self.panel_to_dock));
            }
            Ok(z)
        }
    }
}

} // verus!
