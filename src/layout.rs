//! The layout tree: an arena of nodes addressed by index. Regions (plain
//! resizable containers) form the skeleton; docking zones are its leaves, and
//! each owns exactly one tab container and one highlight overlay.
use vstd::prelude::*;

verus! {

/// The extent of a parent along its layout axis, as a size.
pub const FULL_SIZE: u32 = 100;

/// The share that each of the two children of a newly injected wrapper gets.
pub const HALF_SIZE: u32 = 50;

/// The direction in which a node lays out its children.
#[derive(Clone, Copy, Debug, PartialEq, Eq, Structural)]
pub enum FlexDirection {
    Row,
    Column,
    RowReverse,
    ColumnReverse,
}

/// The direction that a newly created region under a parent laid out in `d`
/// uses for its own children: the other axis, in the same sense.
pub open spec fn cross_of(d: FlexDirection) -> FlexDirection {
    match d {
        FlexDirection::Row => FlexDirection::Column,
        FlexDirection::Column => FlexDirection::Row,
        FlexDirection::RowReverse => FlexDirection::ColumnReverse,
        FlexDirection::ColumnReverse => FlexDirection::RowReverse,
    }
}

pub fn cross_direction(d: FlexDirection) -> (r: FlexDirection)
    ensures
        r == cross_of(d),
{
    match d {
        FlexDirection::Row => FlexDirection::Column,
        FlexDirection::Column => FlexDirection::Row,
        FlexDirection::RowReverse => FlexDirection::ColumnReverse,
        FlexDirection::ColumnReverse => FlexDirection::RowReverse,
    }
}

/// Size of a resizable region: its share of the parent's extent along the
/// parent's layout axis, and the least share it may shrink to.
#[derive(Clone, Copy, Debug, PartialEq, Eq, Structural)]
pub struct SizedZone {
    pub size: u32,
    pub min_size: u32,
}

/// How a new region or docking zone is to be sized.
#[derive(Clone, Copy, Debug, PartialEq, Eq, Structural)]
pub struct SizedZoneConfig {
    pub size: u32,
    pub min_size: u32,
}

/// A docking zone's links to the tab container and the highlight overlay it owns.
#[derive(Clone, Copy, Debug, PartialEq, Eq, Structural)]
pub struct DockingZone {
    pub tab_container: usize,
    pub zone_highlight: usize,
}

/// Back-reference from a highlight overlay to the zone that owns it.
#[derive(Clone, Copy, Debug, PartialEq, Eq, Structural)]
pub struct DockingZoneHighlight {
    pub zone: usize,
}

/// Marks a tab container whose zone is removed once it holds no tab.
#[derive(Clone, Copy, Debug, PartialEq, Eq, Structural)]
pub struct RemoveEmptyDockingZone {
    pub zone: usize,
}

/// The index standing for "no node", before a link is set.
pub const PLACEHOLDER: usize = usize::MAX;

impl Default for DockingZone {
    fn default() -> (r: Self)
        ensures
            r.tab_container == PLACEHOLDER && r.zone_highlight == PLACEHOLDER,
    {
        DockingZone { tab_container: PLACEHOLDER, zone_highlight: PLACEHOLDER }
    }
}

impl Default for DockingZoneHighlight {
    fn default() -> (r: Self)
        ensures
            r.zone == PLACEHOLDER,
    {
        DockingZoneHighlight { zone: PLACEHOLDER }
    }
}

impl Default for RemoveEmptyDockingZone {
    fn default() -> (r: Self)
        ensures
            r.zone == PLACEHOLDER,
    {
        RemoveEmptyDockingZone { zone: PLACEHOLDER }
    }
}

/// A length in a node's style.
#[derive(Clone, Copy, Debug, PartialEq, Eq, Structural)]
pub enum Val {
    Auto,
    Percent(u32),
    Px(i64),
}

/// Geometry and visibility of a highlight overlay.
#[derive(Clone, Copy, Debug, PartialEq, Eq, Structural)]
pub struct HighlightStyle {
    pub visible: bool,
    pub width: Val,
    pub height: Val,
    pub top: Val,
    pub left: Val,
}

/// The style a highlight overlay is created with: transparent, covering the zone.
pub open spec fn initial_highlight_spec() -> HighlightStyle {
    HighlightStyle {
        visible: false,
        width: Val::Percent(100),
        height: Val::Percent(100),
        top: Val::Auto,
        left: Val::Auto,
    }
}

pub fn initial_highlight() -> (r: HighlightStyle)
    ensures
        r == initial_highlight_spec(),
{
    HighlightStyle {
        visible: false,
        width: Val::Percent(100),
        height: Val::Percent(100),
        top: Val::Auto,
        left: Val::Auto,
    }
}

/// A tab group: the panels docked in it, in tab order, and the optional
/// auto-removal marker of its tab bar.
#[derive(Debug)]
pub struct TabContainer {
    pub tabs: Vec<u64>,
    pub remove_empty: Option<RemoveEmptyDockingZone>,
}

#[derive(Debug)]
pub enum NodeKind {
    /// A plain resizable region (or the root), holding regions and zones.
    Region,
    /// A docking zone.
    Zone(DockingZone),
    /// The tab group of a docking zone.
    Tabs(TabContainer),
    /// The highlight overlay of a docking zone.
    Highlight(DockingZoneHighlight, HighlightStyle),
}

#[derive(Debug)]
pub struct Node {
    pub parent: Option<usize>,
    pub children: Vec<usize>,
    pub alive: bool,
    pub sized: Option<SizedZone>,
    pub direction: FlexDirection,
    pub kind: NodeKind,
}

/// An arena of layout nodes. Removed nodes keep their slot, marked dead.
#[derive(Debug)]
pub struct Layout {
    nodes: Vec<Node>,
}

/// Failures of an operation on the layout.
#[derive(Clone, Copy, Debug, PartialEq, Eq, Structural)]
pub enum DockError {
    /// The node named is not a docking zone of the layout.
    InvalidTarget,
    /// The node named as a parent is not a region of the layout.
    InvalidParent,
    /// The zone has no tab at the index given.
    NoSuchTab,
}

pub open spec fn live(s: Seq<Node>, i: int) -> bool {
    0 <= i < s.len() && s[i].alive
}

pub open spec fn zone_of(n: Node) -> DockingZone {
    n.kind->Zone_0
}

pub open spec fn tabs_of(n: Node) -> TabContainer {
    n.kind->Tabs_0
}

pub open spec fn parent_ok(s: Seq<Node>, i: int) -> bool {
    match s[i].parent {
        Some(p) => live(s, p as int) && s[p as int].children@.contains(i as usize),
        None => true,
    }
}

pub open spec fn children_ok(s: Seq<Node>, i: int) -> bool {
    &&& s[i].children@.no_duplicates()
    &&& forall|k: int|
        0 <= k < s[i].children@.len() ==> live(s, #[trigger] s[i].children@[k] as int)
            && s[s[i].children@[k] as int].parent == Some(i as usize)
}

pub open spec fn kind_ok(s: Seq<Node>, i: int) -> bool {
    match s[i].kind {
        NodeKind::Region => s[i].parent matches Some(p) ==> s[p as int].kind is Region,
        NodeKind::Zone(z) => {
            &&& s[i].sized is Some
            &&& s[i].parent matches Some(p) && s[p as int].kind is Region
            &&& s[i].children@ == seq![z.tab_container, z.zone_highlight]
            &&& s[z.tab_container as int].kind is Tabs
            &&& s[z.zone_highlight as int].kind is Highlight
        },
        NodeKind::Tabs(t) => {
            &&& s[i].children@.len() == 0
            &&& s[i].parent matches Some(p) && s[p as int].kind is Zone && zone_of(
                s[p as int],
            ).tab_container == i && (t.remove_empty matches Some(r) ==> r.zone == p)
        },
        NodeKind::Highlight(h, _) => {
            &&& s[i].children@.len() == 0
            &&& s[i].parent == Some(h.zone)
            &&& s[h.zone as int].kind is Zone
            &&& zone_of(s[h.zone as int]).zone_highlight == i
        },
    }
}

pub open spec fn node_ok(s: Seq<Node>, i: int) -> bool {
    parent_ok(s, i) && children_ok(s, i) && kind_ok(s, i)
}

/// The tab container of zone `z` of `s`.
pub open spec fn tab_container_at(s: Seq<Node>, z: int) -> int {
    zone_of(s[z]).tab_container as int
}

/// The highlight overlay of zone `z` of `s`.
pub open spec fn highlight_at(s: Seq<Node>, z: int) -> int {
    zone_of(s[z]).zone_highlight as int
}

/// The panels docked in zone `z` of `s`, in tab order.
pub open spec fn tabs_at(s: Seq<Node>, z: int) -> Seq<u64> {
    tabs_of(s[tab_container_at(s, z)]).tabs@
}

/// The style of the highlight overlay of zone `z` of `s`.
pub open spec fn style_at(s: Seq<Node>, z: int) -> HighlightStyle {
    s[highlight_at(s, z)].kind->Highlight_1
}

/// `new` is `old` with the highlight of zone `z` given `style`.
pub open spec fn highlight_set(old: Seq<Node>, new: Seq<Node>, z: int, style: HighlightStyle) -> bool {
    &&& new.len() == old.len()
    &&& style_at(new, z) == style
    &&& new[highlight_at(old, z)].kind->Highlight_0 == old[highlight_at(old, z)].kind->Highlight_0
    &&& forall|i: int| 0 <= i < old.len() && i != highlight_at(old, z) ==> #[trigger] new[i] == old[i]
}

/// `new` is `old` with the tab container of zone `z` holding `tabs`.
pub open spec fn tabs_set(old: Seq<Node>, new: Seq<Node>, z: int, tabs: Seq<u64>) -> bool {
    &&& new.len() == old.len()
    &&& tabs_at(new, z) == tabs
    &&& tabs_of(new[tab_container_at(old, z)]).remove_empty == tabs_of(old[tab_container_at(old, z)]).remove_empty
    &&& forall|i: int| 0 <= i < old.len() && i != tab_container_at(old, z) ==> #[trigger] new[i] == old[i]
}

/// `new` is `old` with a docking zone `z` created as the last child of
/// `parent`, followed by its tab container and its highlight.
pub open spec fn zone_created(
    old: Seq<Node>,
    new: Seq<Node>,
    parent: int,
    config: SizedZoneConfig,
    remove_empty: bool,
    panel: Option<u64>,
    z: int,
) -> bool {
    &&& z == old.len()
    &&& new.len() == z + 3 && new.len() <= usize::MAX
    &&& Layout::fresh_zone(new, z, parent, config, remove_empty, panel)
    &&& new[parent].children@ == old[parent].children@.push(z as usize)
    &&& same_except(old, new, set![parent])
}

/// The tree is well formed: parent and child links agree, every docking zone
/// sits in a region and owns its tab container and highlight, and the
/// auto-removal marker of a tab container names the zone that owns it.
pub open spec fn wf_nodes(s: Seq<Node>) -> bool {
    forall|i: int| #[trigger] live(s, i) ==> node_ok(s, i)
}

pub open spec fn is_region(s: Seq<Node>, i: int) -> bool {
    live(s, i) && s[i].kind is Region
}

pub open spec fn is_zone(s: Seq<Node>, i: int) -> bool {
    live(s, i) && s[i].kind is Zone
}

/// The nodes other than the first `n` and those in `changed` are as they were.
pub open spec fn same_except(old: Seq<Node>, new: Seq<Node>, changed: Set<int>) -> bool {
    &&& old.len() <= new.len()
    &&& forall|i: int| 0 <= i < old.len() && !changed.contains(i) ==> #[trigger] new[i] == old[i]
}

/// The state after a zone is spawned at index `z = s0.len()` under `parent`.
pub open spec fn spawned(s0: Seq<Node>, s: Seq<Node>, parent: int, pos: int) -> bool {
    let z = s0.len() as int;
    &&& s.len() == z + 3 && s.len() <= usize::MAX
    &&& is_region(s0, parent)
    &&& 0 <= pos <= s0[parent].children@.len()
    &&& s[parent].alive && s[parent].kind == s0[parent].kind && s[parent].parent == s0[parent].parent
    &&& s[parent].children@ == s0[parent].children@.insert(pos, z as usize)
    &&& forall|i: int| 0 <= i < z && i != parent ==> #[trigger] s[i] == s0[i]
    &&& s[z].alive && s[z].parent == Some(parent as usize)
    &&& s[z].kind == NodeKind::Zone(
        DockingZone { tab_container: (z + 1) as usize, zone_highlight: (z + 2) as usize },
    )
    &&& s[z].sized is Some
    &&& s[z].children@ == seq![(z + 1) as usize, (z + 2) as usize]
    &&& s[z + 1].alive && s[z + 1].parent == Some(z as usize)
    &&& s[z + 1].kind is Tabs && s[z + 1].children@.len() == 0
    &&& (tabs_of(s[z + 1]).remove_empty matches Some(r) ==> r.zone == z)
    &&& s[z + 2].alive && s[z + 2].parent == Some(z as usize) && s[z + 2].children@.len() == 0
    &&& s[z + 2].kind is Highlight && s[z + 2].kind->Highlight_0.zone == z
}

proof fn lemma_spawn_parent_children(s0: Seq<Node>, s: Seq<Node>, parent: int, pos: int)
    requires
        wf_nodes(s0),
        spawned(s0, s, parent, pos),
    ensures
        children_ok(s, parent),
{
    let z = s0.len() as int;
    let c0 = s0[parent].children@;
    let c = s[parent].children@;
    assert(live(s0, parent));
    assert(node_ok(s0, parent));
    assert forall|k: int| 0 <= k < c.len() implies live(s, #[trigger] c[k] as int)
        && s[c[k] as int].parent == Some(parent as usize) by {
        if k < pos {
            assert(c[k] == c0[k]);
            assert(live(s0, c0[k] as int));
        } else if k > pos {
            assert(c[k] == c0[k - 1]);
            assert(live(s0, c0[k - 1] as int));
        }
    }
    assert forall|a: int, b: int| 0 <= a < c.len() && 0 <= b < c.len() && a != b implies c[a] != c[b] by {
        if a != pos && b != pos {
            let a0 = if a < pos { a } else { a - 1 };
            let b0 = if b < pos { b } else { b - 1 };
            assert(c[a] == c0[a0]);
            assert(c[b] == c0[b0]);
        } else if a == pos {
            let b0 = if b < pos { b } else { b - 1 };
            assert(c[b] == c0[b0]);
            assert(live(s0, c0[b0] as int));
        } else {
            let a0 = if a < pos { a } else { a - 1 };
            assert(c[a] == c0[a0]);
            assert(live(s0, c0[a0] as int));
        }
    }
}

proof fn lemma_spawn_old_node(s0: Seq<Node>, s: Seq<Node>, parent: int, pos: int, i: int)
    requires
        wf_nodes(s0),
        spawned(s0, s, parent, pos),
        live(s0, i),
    ensures
        node_ok(s, i),
{
    let z = s0.len() as int;
    assert(node_ok(s0, i));
    if let Some(p) = s[i].parent {
        if p as int == parent {
            let c0 = s0[parent].children@;
            let k = choose|k: int| 0 <= k < c0.len() && c0[k] == i as usize;
            if k < pos {
                assert(s[parent].children@[k] == i as usize);
            } else {
                assert(s[parent].children@[k + 1] == i as usize);
            }
        } else {
            assert(live(s0, p as int));
            assert(s[p as int] == s0[p as int]);
        }
    }
    if i == parent {
        lemma_spawn_parent_children(s0, s, parent, pos);
    } else {
        assert forall|k: int| 0 <= k < s[i].children@.len() implies live(s, #[trigger] s[i].children@[k] as int)
            && s[s[i].children@[k] as int].parent == Some(i as usize) by {
            assert(live(s0, s0[i].children@[k] as int));
        }
    }
    match s[i].kind {
        NodeKind::Region => {
            if let Some(p) = s[i].parent {
                assert(live(s0, p as int));
            }
        },
        NodeKind::Zone(zz) => {
            assert(s0[i].children@[0] == zz.tab_container);
            assert(s0[i].children@[1] == zz.zone_highlight);
            assert(live(s0, zz.tab_container as int));
            assert(live(s0, zz.zone_highlight as int));
            let p = s[i].parent->Some_0;
            assert(live(s0, p as int));
        },
        NodeKind::Tabs(t) => {
            let p = s[i].parent->Some_0;
            assert(live(s0, p as int));
        },
        NodeKind::Highlight(h, _) => {
            assert(live(s0, h.zone as int));
        },
    }
}

proof fn lemma_wf_after_spawn(s0: Seq<Node>, s: Seq<Node>, parent: int, pos: int)
    requires
        wf_nodes(s0),
        spawned(s0, s, parent, pos),
    ensures
        wf_nodes(s),
{
    let z = s0.len() as int;
    assert forall|i: int| #[trigger] live(s, i) implies node_ok(s, i) by {
        if i < z {
            if i != parent {
                assert(s[i] == s0[i]);
            }
            lemma_spawn_old_node(s0, s, parent, pos, i);
        } else {
            assert(s[parent].children@[pos] == z as usize);
            assert(s[z].children@[0] == (z + 1) as usize);
            assert(s[z].children@[1] == (z + 2) as usize);
            assert(s[parent].kind is Region);
            if i == z {
                assert(parent_ok(s, i));
                assert(children_ok(s, i));
                assert(kind_ok(s, i));
            } else if i == z + 1 {
                assert(parent_ok(s, i));
                assert(children_ok(s, i));
                assert(kind_ok(s, i));
            } else {
                assert(parent_ok(s, i));
                assert(children_ok(s, i));
                assert(kind_ok(s, i));
            }
        }
    }
}

/// Two nodes agree on everything that well-formedness speaks of.
pub open spec fn shape_eq(a: Node, b: Node) -> bool {
    &&& a.parent == b.parent
    &&& a.children@ == b.children@
    &&& a.alive == b.alive
    &&& (a.sized is Some <==> b.sized is Some)
    &&& match (a.kind, b.kind) {
        (NodeKind::Region, NodeKind::Region) => true,
        (NodeKind::Zone(x), NodeKind::Zone(y)) => x == y,
        (NodeKind::Tabs(x), NodeKind::Tabs(y)) => x.remove_empty == y.remove_empty,
        (NodeKind::Highlight(x, _), NodeKind::Highlight(y, _)) => x == y,
        _ => false,
    }
}

proof fn lemma_wf_same_shape(s0: Seq<Node>, s: Seq<Node>)
    requires
        wf_nodes(s0),
        s.len() == s0.len(),
        forall|i: int| 0 <= i < s.len() ==> shape_eq(#[trigger] s0[i], s[i]),
    ensures
        wf_nodes(s),
{
    assert forall|i: int| #[trigger] live(s, i) implies node_ok(s, i) by {
        assert(shape_eq(s0[i], s[i]));
        assert(live(s0, i));
        assert(node_ok(s0, i));
        if let Some(p) = s[i].parent {
            assert(shape_eq(s0[p as int], s[p as int]));
        }
        assert forall|k: int| 0 <= k < s[i].children@.len() implies live(s, #[trigger] s[i].children@[k] as int)
            && s[s[i].children@[k] as int].parent == Some(i as usize) by {
            assert(live(s0, s0[i].children@[k] as int));
            assert(shape_eq(s0[s0[i].children@[k] as int], s[s[i].children@[k] as int]));
        }
        match s[i].kind {
            NodeKind::Region => {
                if let Some(p) = s[i].parent {
                    assert(shape_eq(s0[p as int], s[p as int]));
                }
            },
            NodeKind::Zone(zz) => {
                assert(s0[i].children@[0] == zz.tab_container);
                assert(s0[i].children@[1] == zz.zone_highlight);
                assert(live(s0, zz.tab_container as int));
                assert(live(s0, zz.zone_highlight as int));
                assert(shape_eq(s0[zz.tab_container as int], s[zz.tab_container as int]));
                assert(shape_eq(s0[zz.zone_highlight as int], s[zz.zone_highlight as int]));
                let p = s[i].parent->Some_0;
                assert(shape_eq(s0[p as int], s[p as int]));
            },
            NodeKind::Tabs(t) => {
                let p = s[i].parent->Some_0;
                assert(shape_eq(s0[p as int], s[p as int]));
            },
            NodeKind::Highlight(h, _) => {
                assert(live(s0, h.zone as int));
                assert(shape_eq(s0[h.zone as int], s[h.zone as int]));
            },
        }
    }
}

/// The state after zone `t`, the child at `idx` of region `p`, is moved into
/// a new region `w = s0.len()` that takes its place.
pub open spec fn wrapped(s0: Seq<Node>, s: Seq<Node>, p: int, t: int, idx: int) -> bool {
    let w = s0.len() as int;
    &&& s.len() == w + 1 && s.len() <= usize::MAX
    &&& is_zone(s0, t) && 0 <= p < s0.len() && s0[t].parent == Some(p as usize)
    &&& 0 <= idx < s0[p].children@.len() && s0[p].children@[idx] == t as usize
    &&& s[p].alive && s[p].kind == s0[p].kind && s[p].parent == s0[p].parent
    &&& s[p].children@ == s0[p].children@.update(idx, w as usize)
    &&& shape_eq(s[t], Node { parent: Some(w as usize), ..s0[t] })
    &&& forall|i: int| 0 <= i < w && i != p && i != t ==> #[trigger] s[i] == s0[i]
    &&& s[w].alive && s[w].parent == Some(p as usize) && s[w].kind is Region
    &&& s[w].children@ == seq![t as usize]
}

proof fn lemma_wrap_old_node(s0: Seq<Node>, s: Seq<Node>, p: int, t: int, idx: int, i: int)
    requires
        wf_nodes(s0),
        wrapped(s0, s, p, t, idx),
        live(s0, i),
        i != t,
    ensures
        node_ok(s, i),
{
    let w = s0.len() as int;
    assert(live(s0, t));
    assert(node_ok(s0, t));
    assert(node_ok(s0, i));
    assert(live(s0, p));
    assert(node_ok(s0, p));
    let c0 = s0[p].children@;
    if let Some(q) = s[i].parent {
        assert(live(s0, q as int));
        assert(node_ok(s0, q as int));
        if q as int == p {
            let k = choose|k: int| 0 <= k < c0.len() && c0[k] == i as usize;
            assert(k != idx);
            assert(s[p].children@[k] == i as usize);
        } else if q as int == t {
            assert(s[t].children@ == s0[t].children@);
        } else {
            assert(s[q as int] == s0[q as int]);
        }
    }
    if i == p {
        let c = s[p].children@;
        assert forall|k: int| 0 <= k < c.len() implies live(s, #[trigger] c[k] as int)
            && s[c[k] as int].parent == Some(p as usize) by {
            if k != idx {
                assert(c[k] == c0[k]);
                assert(live(s0, c0[k] as int));
                assert(c0[k] != t as usize);
            }
        }
        assert forall|a: int, b: int| 0 <= a < c.len() && 0 <= b < c.len() && a != b implies c[a] != c[b] by {
            if a != idx && b != idx {
                assert(c[a] == c0[a]);
                assert(c[b] == c0[b]);
            } else if a == idx {
                assert(live(s0, c0[b] as int));
            } else {
                assert(live(s0, c0[a] as int));
            }
        }
    } else {
        assert forall|k: int| 0 <= k < s[i].children@.len() implies live(s, #[trigger] s[i].children@[k] as int)
            && s[s[i].children@[k] as int].parent == Some(i as usize) by {
            let c = s0[i].children@[k] as int;
            assert(live(s0, c));
            if c == t {
                assert(s0[t].parent == Some(i as usize));
            }
        }
    }
    match s[i].kind {
        NodeKind::Region => {
            if let Some(q) = s[i].parent {
                assert(live(s0, q as int));
            }
        },
        NodeKind::Zone(zz) => {
            assert(s0[i].children@[0] == zz.tab_container);
            assert(s0[i].children@[1] == zz.zone_highlight);
            assert(live(s0, zz.tab_container as int));
            assert(live(s0, zz.zone_highlight as int));
            let q = s[i].parent->Some_0;
            assert(live(s0, q as int));
        },
        NodeKind::Tabs(tt) => {
            let q = s[i].parent->Some_0;
            assert(live(s0, q as int));
        },
        NodeKind::Highlight(h, _) => {
            assert(live(s0, h.zone as int));
        },
    }
}

proof fn lemma_wf_after_wrap(s0: Seq<Node>, s: Seq<Node>, p: int, t: int, idx: int)
    requires
        wf_nodes(s0),
        wrapped(s0, s, p, t, idx),
    ensures
        wf_nodes(s),
{
    let w = s0.len() as int;
    assert(live(s0, t));
    assert(node_ok(s0, t));
    assert(live(s0, p));
    assert(node_ok(s0, p));
    assert forall|i: int| #[trigger] live(s, i) implies node_ok(s, i) by {
        if i == t {
            let zz = zone_of(s0[t]);
            assert(s0[t].children@[0] == zz.tab_container);
            assert(s0[t].children@[1] == zz.zone_highlight);
            assert(live(s0, zz.tab_container as int));
            assert(live(s0, zz.zone_highlight as int));
            assert(s[w].children@[0] == t as usize);
            assert(parent_ok(s, i));
            assert(children_ok(s, i));
            assert(kind_ok(s, i));
        } else if i < w {
            lemma_wrap_old_node(s0, s, p, t, idx, i);
        } else {
            assert(s[p].children@[idx] == w as usize);
            assert(s[t].parent == Some(w as usize));
            assert(parent_ok(s, i));
            assert(children_ok(s, i));
            assert(kind_ok(s, i));
        }
    }
}

/// What well-formedness gives of a docking zone: it sits, once, among the
/// children of a region, and has a size.
pub proof fn lemma_zone_facts(s: Seq<Node>, t: int)
    requires
        wf_nodes(s),
        is_zone(s, t),
    ensures
        s[t].parent is Some,
        is_region(s, s[t].parent->Some_0 as int),
        s[s[t].parent->Some_0 as int].children@.contains(t as usize),
        s[s[t].parent->Some_0 as int].children@.no_duplicates(),
        s[t].sized is Some,
{
    assert(live(s, t));
    assert(node_ok(s, t));
    let p = s[t].parent->Some_0 as int;
    assert(live(s, p));
    assert(node_ok(s, p));
}

/// The children of a live node are live nodes of the arena.
pub proof fn lemma_child_in_range(s: Seq<Node>, p: int, k: int)
    requires
        wf_nodes(s),
        live(s, p),
        0 <= k < s[p].children@.len(),
    ensures
        live(s, s[p].children@[k] as int),
        s[s[p].children@[k] as int].parent == Some(p as usize),
{
    assert(node_ok(s, p));
}

/// `s` is `s0` with zone `z` (the child at `idx` of `p`), its tab container
/// and its highlight removed.
pub open spec fn zone_removed(s0: Seq<Node>, s: Seq<Node>, p: int, z: int, idx: int) -> bool {
    let tc = zone_of(s0[z]).tab_container as int;
    let hl = zone_of(s0[z]).zone_highlight as int;
    &&& s.len() == s0.len() && s0.len() <= usize::MAX
    &&& is_zone(s0, z) && 0 <= p < s0.len() && s0[z].parent == Some(p as usize)
    &&& 0 <= idx < s0[p].children@.len() && s0[p].children@[idx] == z as usize
    &&& s[p] == Node { children: s[p].children, ..s0[p] }
    &&& s[p].children@ == s0[p].children@.remove(idx)
    &&& s[z] == Node { alive: false, ..s0[z] }
    &&& s[tc] == Node { alive: false, ..s0[tc] }
    &&& s[hl] == Node { alive: false, ..s0[hl] }
    &&& forall|i: int| 0 <= i < s.len() && i != p && i != z && i != tc && i != hl ==> #[trigger] s[i] == s0[i]
}

proof fn lemma_remove_live_node(s0: Seq<Node>, s: Seq<Node>, p: int, z: int, idx: int, i: int)
    requires
        wf_nodes(s0),
        zone_removed(s0, s, p, z, idx),
        live(s, i),
    ensures
        node_ok(s, i),
{
    let tc = zone_of(s0[z]).tab_container as int;
    let hl = zone_of(s0[z]).zone_highlight as int;
    assert(live(s0, z));
    assert(node_ok(s0, z));
    assert(s0[z].children@[0] == tc as usize);
    assert(s0[z].children@[1] == hl as usize);
    assert(live(s0, tc));
    assert(live(s0, hl));
    assert(node_ok(s0, tc));
    assert(node_ok(s0, hl));
    assert(live(s0, p));
    assert(node_ok(s0, p));
    assert(i != z && i != tc && i != hl);
    assert(live(s0, i));
    assert(node_ok(s0, i));
    let c0 = s0[p].children@;
    if let Some(q) = s[i].parent {
        assert(live(s0, q as int));
        assert(node_ok(s0, q as int));
        if q as int == z {
            assert(false);
        }
        if q as int == p {
            let k = choose|k: int| 0 <= k < c0.len() && c0[k] == i as usize;
            assert(k != idx);
            if k < idx {
                assert(s[p].children@[k] == i as usize);
            } else {
                assert(s[p].children@[k - 1] == i as usize);
            }
        } else {
            assert(s[q as int] == s0[q as int]);
        }
    }
    if i == p {
        let c = s[p].children@;
        assert forall|k: int| 0 <= k < c.len() implies live(s, #[trigger] c[k] as int)
            && s[c[k] as int].parent == Some(p as usize) by {
            let k0 = if k < idx { k } else { k + 1 };
            assert(c[k] == c0[k0]);
            assert(live(s0, c0[k0] as int));
            assert(c0[k0] != z as usize);
        }
        assert forall|a: int, b: int| 0 <= a < c.len() && 0 <= b < c.len() && a != b implies c[a] != c[b] by {
            let a0 = if a < idx { a } else { a + 1 };
            let b0 = if b < idx { b } else { b + 1 };
            assert(c[a] == c0[a0]);
            assert(c[b] == c0[b0]);
        }
    } else {
        assert forall|k: int| 0 <= k < s[i].children@.len() implies live(s, #[trigger] s[i].children@[k] as int)
            && s[s[i].children@[k] as int].parent == Some(i as usize) by {
            let c = s0[i].children@[k] as int;
            assert(live(s0, c));
        }
    }
    match s[i].kind {
        NodeKind::Region => {
            if let Some(q) = s[i].parent {
                assert(live(s0, q as int));
            }
        },
        NodeKind::Zone(zz) => {
            assert(s0[i].children@[0] == zz.tab_container);
            assert(s0[i].children@[1] == zz.zone_highlight);
            assert(live(s0, zz.tab_container as int));
            assert(live(s0, zz.zone_highlight as int));
            let q = s[i].parent->Some_0;
            assert(live(s0, q as int));
        },
        NodeKind::Tabs(tt) => {
            let q = s[i].parent->Some_0;
            assert(live(s0, q as int));
        },
        NodeKind::Highlight(h, _) => {
            assert(live(s0, h.zone as int));
        },
    }
}

proof fn lemma_wf_after_remove(s0: Seq<Node>, s: Seq<Node>, p: int, z: int, idx: int)
    requires
        wf_nodes(s0),
        zone_removed(s0, s, p, z, idx),
    ensures
        wf_nodes(s),
{
    assert forall|i: int| #[trigger] live(s, i) implies node_ok(s, i) by {
        lemma_remove_live_node(s0, s, p, z, idx, i);
    }
}

/// Zone `z` is to be removed: its tab container holds no tab and carries the
/// auto-removal marker.
pub open spec fn removable(s: Seq<Node>, z: int) -> bool {
    &&& is_zone(s, z)
    &&& tabs_of(s[zone_of(s[z]).tab_container as int]).tabs@.len() == 0
    &&& tabs_of(s[zone_of(s[z]).tab_container as int]).remove_empty is Some
}

impl Layout {
    pub closed spec fn nodes(&self) -> Seq<Node> {
        self.nodes@
    }

    pub open spec fn wf(&self) -> bool {
        wf_nodes(self.nodes())
    }

    /// An empty layout: a root region laying out its children in `direction`.
    pub fn new(direction: FlexDirection) -> (r: Layout)
        ensures
            r.wf(),
            r.nodes().len() == 1,
            is_region(r.nodes(), 0),
            r.nodes()[0].parent is None,
            r.nodes()[0].children@.len() == 0,
            r.nodes()[0].direction == direction,
    {
        let root = Node {
            parent: None,
            children: Vec::new(),
            alive: true,
            sized: None,
            direction,
            kind: NodeKind::Region,
        };
        let mut nodes: Vec<Node> = Vec::new();
        nodes.push(root);
        let r = Layout { nodes };
        assert(r.nodes()[0].children@.len() == 0);
        r
    }

    /// The tabs a new zone's container starts with: the panel to dock, if any.
    pub open spec fn initial_tabs(panel: Option<u64>) -> Seq<u64> {
        match panel {
            Some(id) => seq![id],
            None => seq![],
        }
    }

    /// The three nodes of a docking zone created at index `z` under `parent`:
    /// the zone, its tab container at `z + 1` and its highlight at `z + 2`.
    pub open spec fn fresh_zone(
        s: Seq<Node>,
        z: int,
        parent: int,
        config: SizedZoneConfig,
        remove_empty: bool,
        panel: Option<u64>,
    ) -> bool {
        &&& s[z].alive && s[z].parent == Some(parent as usize)
        &&& s[z].kind == NodeKind::Zone(
            DockingZone { tab_container: (z + 1) as usize, zone_highlight: (z + 2) as usize },
        )
        &&& s[z].sized == Some(SizedZone { size: config.size, min_size: config.min_size })
        &&& s[z].children@ == seq![(z + 1) as usize, (z + 2) as usize]
        &&& s[z + 1].alive && s[z + 1].parent == Some(z as usize)
        &&& s[z + 1].kind is Tabs
        &&& tabs_of(s[z + 1]).tabs@ == Self::initial_tabs(panel)
        &&& tabs_of(s[z + 1]).remove_empty == (if remove_empty {
            Some(RemoveEmptyDockingZone { zone: z as usize })
        } else {
            None
        })
        &&& s[z + 2].alive && s[z + 2].parent == Some(z as usize)
        &&& s[z + 2].kind == NodeKind::Highlight(
            DockingZoneHighlight { zone: z as usize },
            initial_highlight_spec(),
        )
    }

    /// Creates a docking zone, its tab container and its highlight overlay as
    /// one unit, and inserts the zone at position `pos` among the children of
    /// region `parent`.
    pub(crate) fn spawn_docking_zone(
        &mut self,
        parent: usize,
        pos: usize,
        config: SizedZoneConfig,
        remove_empty: bool,
        panel: Option<u64>,
    ) -> (z: usize)
        requires
            old(self).wf(),
            is_region(old(self).nodes(), parent as int),
            pos <= old(self).nodes()[parent as int].children@.len(),
            old(self).nodes().len() + 3 <= usize::MAX,
        ensures
            final(self).wf(),
            z == old(self).nodes().len(),
            final(self).nodes().len() == z + 3,
            Self::fresh_zone(final(self).nodes(), z as int, parent as int, config, remove_empty, panel),
            final(self).nodes()[parent as int].children@ == old(self).nodes()[parent as int].children@.insert(pos as int, z),
            final(self).nodes()[parent as int].alive,
            final(self).nodes()[parent as int].kind == old(self).nodes()[parent as int].kind,
            final(self).nodes()[parent as int].sized == old(self).nodes()[parent as int].sized,
            final(self).nodes()[parent as int].parent == old(self).nodes()[parent as int].parent,
            final(self).nodes()[parent as int].direction == old(self).nodes()[parent as int].direction,
            same_except(old(self).nodes(), final(self).nodes(), set![parent as int]),
    {
        let ghost s0 = self.nodes@;
        let z = self.nodes.len();
        let tc = z + 1;
        let hl = z + 2;
        let dir = cross_direction(self.nodes[parent].direction);
        let mut tabs: Vec<u64> = Vec::new();
        match panel {
            Some(id) => {
                tabs.push(id);
            },
            None => {},
        }
        let marker = if remove_empty {
            Some(RemoveEmptyDockingZone { zone: z })
        } else {
            None
        };
        let mut zone_children: Vec<usize> = Vec::new();
        zone_children.push(tc);
        zone_children.push(hl);
        self.nodes.push(
            Node {
                parent: Some(parent),
                children: zone_children,
                alive: true,
                sized: Some(SizedZone { size: config.size, min_size: config.min_size }),
                direction: dir,
                kind: NodeKind::Zone(DockingZone { tab_container: tc, zone_highlight: hl }),
            },
        );
        self.nodes.push(
            Node {
                parent: Some(z),
                children: Vec::new(),
                alive: true,
                sized: None,
                direction: cross_direction(dir),
                kind: NodeKind::Tabs(TabContainer { tabs, remove_empty: marker }),
            },
        );
        self.nodes.push(
            Node {
                parent: Some(z),
                children: Vec::new(),
                alive: true,
                sized: None,
                direction: cross_direction(dir),
                kind: NodeKind::Highlight(DockingZoneHighlight { zone: z }, initial_highlight()),
            },
        );
        self.nodes[parent].children.insert(pos, z);
        proof {
            let s = self.nodes@;
            assert(tabs_of(s[z + 1]).tabs@ =~= Self::initial_tabs(panel));
            assert(s[z as int].children@ =~= seq![tc, hl]);
            lemma_wf_after_spawn(s0, s, parent as int, pos as int);
        }
        z
    }

    /// Creates a docking zone as the last child of region `parent`, with its
    /// tab container (holding `panel`, if given) and a transparent highlight
    /// overlay covering it. With `remove_empty`, the tab container is marked so
    /// that the zone is removed once it holds no tab. Fails, changing nothing,
    /// if `parent` is not a region of the layout.
    pub fn docking_zone(
        &mut self,
        parent: usize,
        config: SizedZoneConfig,
        remove_empty: bool,
        panel: Option<u64>,
    ) -> (r: Result<usize, DockError>)
        requires
            old(self).wf(),
            old(self).nodes().len() + 3 <= usize::MAX,
        ensures
            final(self).wf(),
            r is Err <==> !is_region(old(self).nodes(), parent as int),
            r is Err ==> final(self).nodes() == old(self).nodes(),
            r matches Ok(z) ==> zone_created(
                old(self).nodes(),
                final(self).nodes(),
                parent as int,
                config,
                remove_empty,
                panel,
                z as int,
            ),
    {
        if !(parent < self.nodes.len() && self.nodes[parent].alive && match self.nodes[parent].kind {
            NodeKind::Region => true,
            _ => false,
        }) {
            return Err(DockError::InvalidParent);
        }
        let pos = self.nodes[parent].children.len();
        let z = self.spawn_docking_zone(parent, pos, config, remove_empty, panel);
        proof {
            let s0 = old(self).nodes();
            assert(s0[parent as int].children@.insert(pos as int, z) =~= s0[parent as int].children@.push(z));
        }
        Ok(z)
    }

    /// Docks `panel` into the tab container of zone `z`, as its last tab:
    /// what a drop on the centre of a zone does. Fails, changing nothing, if
    /// `z` is not a docking zone.
    pub fn dock_panel(&mut self, z: usize, panel: u64) -> (r: Result<(), DockError>)
        requires
            old(self).wf(),
        ensures
            final(self).wf(),
            r is Err <==> !is_zone(old(self).nodes(), z as int),
            r is Err ==> final(self).nodes() == old(self).nodes(),
            r is Ok ==> tabs_set(
                old(self).nodes(),
                final(self).nodes(),
                z as int,
                tabs_at(old(self).nodes(), z as int).push(panel),
            ),
    {
        if !self.is_docking_zone(z) {
            return Err(DockError::InvalidTarget);
        }
        let ghost s0 = self.nodes@;
        let tc = match self.nodes[z].kind {
            NodeKind::Zone(d) => d.tab_container,
            _ => {
                return Err(DockError::InvalidTarget);
            },
        };
        proof {
            assert(live(s0, z as int));
            assert(node_ok(s0, z as int));
            assert(s0[z as int].children@[0] == tc);
        }
        match &mut self.nodes[tc].kind {
            NodeKind::Tabs(t) => {
                t.tabs.push(panel);
            },
            _ => {},
        }
        proof {
            let s = self.nodes@;
            assert forall|j: int| 0 <= j < s.len() implies shape_eq(#[trigger] s0[j], s[j]) by {
                if j != tc {
                    assert(s[j] == s0[j]);
                }
            }
            lemma_wf_same_shape(s0, s);
        }
        Ok(())
    }

    /// Takes the tab at `index` out of the tab container of zone `z` and
    /// returns its panel. The zone stays, even when it holds no more tab,
    /// until [`Layout::remove_empty_docking_zones`] runs. Fails, changing
    /// nothing, if `z` is not a docking zone or has no such tab.
    pub fn remove_tab(&mut self, z: usize, index: usize) -> (r: Result<u64, DockError>)
        requires
            old(self).wf(),
        ensures
            final(self).wf(),
            r is Err <==> !is_zone(old(self).nodes(), z as int) || index >= tabs_at(old(self).nodes(), z as int).len(),
            r is Err ==> final(self).nodes() == old(self).nodes(),
            r matches Ok(panel) ==> {
                &&& panel == tabs_at(old(self).nodes(), z as int)[index as int]
                &&& tabs_set(
                    old(self).nodes(),
                    final(self).nodes(),
                    z as int,
                    tabs_at(old(self).nodes(), z as int).remove(index as int),
                )
            },
    {
        if !self.is_docking_zone(z) {
            return Err(DockError::InvalidTarget);
        }
        let ghost s0 = self.nodes@;
        let tc = match self.nodes[z].kind {
            NodeKind::Zone(d) => d.tab_container,
            _ => {
                return Err(DockError::InvalidTarget);
            },
        };
        proof {
            assert(live(s0, z as int));
            assert(node_ok(s0, z as int));
            assert(s0[z as int].children@[0] == tc);
        }
        let len = match &self.nodes[tc].kind {
            NodeKind::Tabs(t) => t.tabs.len(),
            _ => 0,
        };
        if index >= len {
            return Err(DockError::NoSuchTab);
        }
        let mut panel: u64 = 0;
        match &mut self.nodes[tc].kind {
            NodeKind::Tabs(t) => {
                panel = t.tabs.remove(index);
            },
            _ => {},
        }
        proof {
            let s = self.nodes@;
            assert forall|j: int| 0 <= j < s.len() implies shape_eq(#[trigger] s0[j], s[j]) by {
                if j != tc {
                    assert(s[j] == s0[j]);
                }
            }
            lemma_wf_same_shape(s0, s);
        }
        Ok(panel)
    }

    /// Sets the style of the highlight overlay of zone `z`. Fails, changing
    /// nothing, if `z` is not a docking zone.
    pub fn set_highlight(&mut self, z: usize, style: HighlightStyle) -> (r: Result<(), DockError>)
        requires
            old(self).wf(),
        ensures
            final(self).wf(),
            r is Err <==> !is_zone(old(self).nodes(), z as int),
            r is Err ==> final(self).nodes() == old(self).nodes(),
            r is Ok ==> highlight_set(old(self).nodes(), final(self).nodes(), z as int, style),
    {
        if !self.is_docking_zone(z) {
            return Err(DockError::InvalidTarget);
        }
        let ghost s0 = self.nodes@;
        let hl = match self.nodes[z].kind {
            NodeKind::Zone(d) => d.zone_highlight,
            _ => {
                return Err(DockError::InvalidTarget);
            },
        };
        proof {
            assert(live(s0, z as int));
            assert(node_ok(s0, z as int));
            assert(s0[z as int].children@[1] == hl);
        }
        match &mut self.nodes[hl].kind {
            NodeKind::Highlight(_, st) => {
                *st = style;
            },
            _ => {},
        }
        proof {
            let s = self.nodes@;
            assert forall|j: int| 0 <= j < s.len() implies shape_eq(#[trigger] s0[j], s[j]) by {
                if j != hl {
                    assert(s[j] == s0[j]);
                }
            }
            lemma_wf_same_shape(s0, s);
        }
        Ok(())
    }

    /// Removes docking zone `z` together with its tab container and highlight.
    pub(crate) fn remove_zone(&mut self, z: usize)
        requires
            old(self).wf(),
            is_zone(old(self).nodes(), z as int),
        ensures
            final(self).wf(),
            exists|p: int, idx: int| zone_removed(old(self).nodes(), final(self).nodes(), p, z as int, idx),
    {
        let ghost s0 = self.nodes@;
        proof {
            assert(s0.len() == self.nodes.len());
            lemma_zone_facts(s0, z as int);
            assert(live(s0, z as int));
            assert(node_ok(s0, z as int));
        }
        let p = match self.nodes[z].parent {
            Some(p) => p,
            None => 0,
        };
        let (tc, hl) = match self.nodes[z].kind {
            NodeKind::Zone(d) => (d.tab_container, d.zone_highlight),
            _ => (z, z),
        };
        proof {
            assert(s0[z as int].children@[0] == tc);
            assert(s0[z as int].children@[1] == hl);
            assert(live(s0, tc as int));
            assert(live(s0, hl as int));
        }
        let mut idx: usize = 0;
        while idx < self.nodes[p].children.len() && self.nodes[p].children[idx] != z
            invariant
                self.nodes@ == s0,
                s0[p as int].children@.contains(z),
                idx <= s0[p as int].children@.len(),
                0 <= p < s0.len(),
                forall|k: int| 0 <= k < idx ==> s0[p as int].children@[k] != z,
            decreases s0[p as int].children@.len() - idx,
        {
            idx = idx + 1;
        }
        proof {
            if idx == s0[p as int].children@.len() {
                let k = choose|k: int| 0 <= k < s0[p as int].children@.len() && s0[p as int].children@[k] == z;
                assert(s0[p as int].children@[k] == z);
            }
        }
        self.nodes[p].children.remove(idx);
        self.nodes[z].alive = false;
        self.nodes[tc].alive = false;
        self.nodes[hl].alive = false;
        proof {
            let s = self.nodes@;
            assert(s[p as int] == Node { children: s[p as int].children, ..s0[p as int] });
            assert(s[p as int].children@ == s0[p as int].children@.remove(idx as int));
            assert(s[z as int] == Node { alive: false, ..s0[z as int] });
            assert(s[tc as int] == Node { alive: false, ..s0[tc as int] });
            assert(s[hl as int] == Node { alive: false, ..s0[hl as int] });
            assert(zone_removed(s0, s, p as int, z as int, idx as int));
            lemma_wf_after_remove(s0, s, p as int, z as int, idx as int);
            assert(zone_removed(old(self).nodes(), self.nodes(), p as int, z as int, idx as int));
        }
    }

    /// Whether zone `z` is to be removed by the cleanup pass.
    pub fn is_removable_zone(&self, z: usize) -> (r: bool)
        requires
            self.wf(),
        ensures
            r == removable(self.nodes(), z as int),
    {
        if !self.is_docking_zone(z) {
            return false;
        }
        proof {
            assert(live(self.nodes@, z as int));
            assert(node_ok(self.nodes@, z as int));
        }
        let tc = match self.nodes[z].kind {
            NodeKind::Zone(d) => d.tab_container,
            _ => {
                return false;
            },
        };
        proof {
            assert(self.nodes@[z as int].children@[0] == tc);
        }
        match &self.nodes[tc].kind {
            NodeKind::Tabs(t) => t.tabs.len() == 0 && t.remove_empty.is_some(),
            _ => false,
        }
    }

    /// The style of the highlight overlay of zone `z`.
    pub fn highlight_style(&self, z: usize) -> (r: Option<HighlightStyle>)
        requires
            self.wf(),
        ensures
            is_zone(self.nodes(), z as int) ==> r == Some(style_at(self.nodes(), z as int)),
            !is_zone(self.nodes(), z as int) ==> r is None,
    {
        if !self.is_docking_zone(z) {
            return None;
        }
        proof {
            assert(live(self.nodes@, z as int));
            assert(node_ok(self.nodes@, z as int));
        }
        let hl = match self.nodes[z].kind {
            NodeKind::Zone(d) => d.zone_highlight,
            _ => {
                return None;
            },
        };
        proof {
            assert(self.nodes@[z as int].children@[1] == hl);
        }
        match &self.nodes[hl].kind {
            NodeKind::Highlight(_, st) => Some(*st),
            _ => None,
        }
    }

    /// The panels docked in zone `z`, in tab order.
    pub fn tabs(&self, z: usize) -> (r: Option<&Vec<u64>>)
        requires
            self.wf(),
        ensures
            is_zone(self.nodes(), z as int) ==> (r matches Some(v) && v@ == tabs_at(self.nodes(), z as int)),
            !is_zone(self.nodes(), z as int) ==> r is None,
    {
        if !self.is_docking_zone(z) {
            return None;
        }
        proof {
            assert(live(self.nodes@, z as int));
            assert(node_ok(self.nodes@, z as int));
        }
        let tc = match self.nodes[z].kind {
            NodeKind::Zone(d) => d.tab_container,
            _ => {
                return None;
            },
        };
        proof {
            assert(self.nodes@[z as int].children@[0] == tc);
        }
        match &self.nodes[tc].kind {
            NodeKind::Tabs(t) => Some(&t.tabs),
            _ => None,
        }
    }

    /// The links of docking zone `z` to its tab container and highlight.
    pub fn zone_links(&self, z: usize) -> (r: Option<DockingZone>)
        ensures
            is_zone(self.nodes(), z as int) ==> r == Some(zone_of(self.nodes()[z as int])),
            !is_zone(self.nodes(), z as int) ==> r is None,
    {
        if !self.is_docking_zone(z) {
            return None;
        }
        match self.nodes[z].kind {
            NodeKind::Zone(d) => Some(d),
            _ => None,
        }
    }

    /// Whether the tab container of zone `z` carries the auto-removal marker.
    pub fn removes_when_empty(&self, z: usize) -> (r: bool)
        requires
            self.wf(),
        ensures
            r == (is_zone(self.nodes(), z as int) && tabs_of(
                self.nodes()[tab_container_at(self.nodes(), z as int)],
            ).remove_empty is Some),
    {
        if !self.is_docking_zone(z) {
            return false;
        }
        proof {
            assert(live(self.nodes@, z as int));
            assert(node_ok(self.nodes@, z as int));
        }
        let tc = match self.nodes[z].kind {
            NodeKind::Zone(d) => d.tab_container,
            _ => {
                return false;
            },
        };
        proof {
            assert(self.nodes@[z as int].children@[0] == tc);
        }
        match &self.nodes[tc].kind {
            NodeKind::Tabs(t) => t.remove_empty.is_some(),
            _ => false,
        }
    }

    /// Moves zone `t`, the child at `idx` of region `p`, into a new region that
    /// takes its place in `p` and its size, and lays out its children across
    /// `p`'s axis.
    pub(crate) fn wrap_zone(&mut self, p: usize, t: usize, idx: usize) -> (w: usize)
        requires
            old(self).wf(),
            is_zone(old(self).nodes(), t as int),
            old(self).nodes()[t as int].parent == Some(p),
            idx < old(self).nodes()[p as int].children@.len(),
            old(self).nodes()[p as int].children@[idx as int] == t,
            old(self).nodes().len() + 1 <= usize::MAX,
        ensures
            final(self).wf(),
            w == old(self).nodes().len(),
            wrapped(old(self).nodes(), final(self).nodes(), p as int, t as int, idx as int),
            final(self).nodes()[w as int].sized == old(self).nodes()[t as int].sized,
            final(self).nodes()[w as int].direction == cross_of(old(self).nodes()[p as int].direction),
            final(self).nodes()[t as int].sized == old(self).nodes()[t as int].sized,
            final(self).nodes()[t as int].kind == old(self).nodes()[t as int].kind,
            final(self).nodes()[p as int].sized == old(self).nodes()[p as int].sized,
            final(self).nodes()[p as int].direction == old(self).nodes()[p as int].direction,
    {
        let ghost s0 = self.nodes@;
        proof {
            assert(live(s0, t as int));
            assert(node_ok(s0, t as int));
        }
        let w = self.nodes.len();
        let sized = self.nodes[t].sized;
        let dir = cross_direction(self.nodes[p].direction);
        let mut children: Vec<usize> = Vec::new();
        children.push(t);
        self.nodes.push(
            Node { parent: Some(p), children, alive: true, sized, direction: dir, kind: NodeKind::Region },
        );
        self.nodes[p].children[idx] = w;
        self.nodes[t].parent = Some(w);
        proof {
            let s = self.nodes@;
            assert(s[p as int].children@ =~= s0[p as int].children@.update(idx as int, w));
            assert(s[w as int].children@ =~= seq![t]);
            lemma_wf_after_wrap(s0, s, p as int, t as int, idx as int);
        }
        w
    }

    /// Sets the size of the sized node `i`, keeping its minimum size.
    pub(crate) fn set_size(&mut self, i: usize, size: u32)
        requires
            old(self).wf(),
            live(old(self).nodes(), i as int),
            old(self).nodes()[i as int].sized is Some,
        ensures
            final(self).wf(),
            final(self).nodes().len() == old(self).nodes().len(),
            final(self).nodes()[i as int].sized == Some(
                SizedZone { size, min_size: old(self).nodes()[i as int].sized->Some_0.min_size },
            ),
            shape_eq(final(self).nodes()[i as int], old(self).nodes()[i as int]),
            final(self).nodes()[i as int].kind == old(self).nodes()[i as int].kind,
            forall|j: int| 0 <= j < old(self).nodes().len() && j != i ==> #[trigger] final(self).nodes()[j] == old(self).nodes()[j],
    {
        let ghost s0 = self.nodes@;
        let min_size = match self.nodes[i].sized {
            Some(z) => z.min_size,
            None => 0,
        };
        self.nodes[i].sized = Some(SizedZone { size, min_size });
        proof {
            let s = self.nodes@;
            assert forall|j: int| 0 <= j < s.len() implies shape_eq(#[trigger] s0[j], s[j]) by {
                if j != i {
                    assert(s[j] == s0[j]);
                }
            }
            lemma_wf_same_shape(s0, s);
        }
    }

    /// Whether `i` is a docking zone of this layout.
    pub fn is_docking_zone(&self, i: usize) -> (r: bool)
        ensures
            r == is_zone(self.nodes(), i as int),
    {
        i < self.nodes.len() && self.nodes[i].alive && match self.nodes[i].kind {
            NodeKind::Zone(_) => true,
            _ => false,
        }
    }

    /// Whether slot `i` holds a node that has not been removed.
    pub fn is_alive(&self, i: usize) -> (r: bool)
        ensures
            r == live(self.nodes(), i as int),
    {
        i < self.nodes.len() && self.nodes[i].alive
    }

    pub fn parent_of(&self, i: usize) -> (r: Option<usize>)
        requires
            i < self.nodes().len(),
        ensures
            r == self.nodes()[i as int].parent,
    {
        self.nodes[i].parent
    }

    pub fn children_of(&self, i: usize) -> (r: &Vec<usize>)
        requires
            i < self.nodes().len(),
        ensures
            r@ == self.nodes()[i as int].children@,
    {
        &self.nodes[i].children
    }

    pub fn sized_of(&self, i: usize) -> (r: Option<SizedZone>)
        requires
            i < self.nodes().len(),
        ensures
            r == self.nodes()[i as int].sized,
    {
        self.nodes[i].sized
    }

    pub fn direction_of(&self, i: usize) -> (r: FlexDirection)
        requires
            i < self.nodes().len(),
        ensures
            r == self.nodes()[i as int].direction,
    {
        self.nodes[i].direction
    }

    /// The root region.
    pub fn root(&self) -> (r: usize)
        ensures
            r == 0,
    {
        0
    }

    /// Number of slots in the arena, removed nodes included.
    pub fn len(&self) -> (r: usize)
        ensures
            r == self.nodes().len(),
    {
        self.nodes.len()
    }
}

} // verus!
