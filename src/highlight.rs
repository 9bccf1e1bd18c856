//! Reacting to a change of a docking zone's drop state: showing where a
//! dragged panel would land, and docking it when it is dropped.
use vstd::prelude::*;

use crate::geometry::{calculate_drop_area, drop_area_of, DropArea, Point};
use crate::layout::{
    highlight_at, highlight_set, is_zone, tab_container_at, wf_nodes, zone_created, SizedZoneConfig, style_at, tabs_at, tabs_set, DockError, HighlightStyle, Layout, Node, Val,
};
use crate::split::{split_result, DockingZoneSplit, DockingZoneSplitDirection};

verus! {

/// The phase of a drag over a drop zone.
#[derive(Clone, Copy, Debug, PartialEq, Eq, Structural)]
pub enum DropPhase {
    Inactive,
    DroppableEntered,
    DroppableHover,
    Dropped,
    DroppableLeft,
    DropCanceled,
}

/// The drop state of a docking zone: the phase, the pointer position if
/// known, and the entity being dragged over it, if any.
#[derive(Clone, Copy, Debug, PartialEq, Eq, Structural)]
pub struct DropZoneState {
    pub phase: DropPhase,
    pub position: Option<Point>,
    pub incoming: Option<u64>,
}

/// What is known of a docking zone in the frame: its rectangle (centre and
/// extent), the height of its tab bar, and whether the tab bar itself is
/// under the pointer.
#[derive(Clone, Copy, Debug, PartialEq, Eq, Structural)]
pub struct ZoneFrame {
    pub center: Point,
    pub size: Point,
    pub tab_bar_height: i32,
    pub bar_hovered: bool,
}

/// What a change of drop state calls for.
#[derive(Clone, Copy, Debug, PartialEq, Eq, Structural)]
pub enum DropAction {
    /// Make the highlight transparent.
    ClearHighlight,
    /// Show the highlight over the part of the zone given.
    ShowHighlight(DropArea),
    /// Dock the panel into the zone's own tab container.
    DockCenter(u64),
    /// Split the zone and dock the panel into the new zone.
    Split(DockingZoneSplitDirection, u64),
}

/// The split that a drop on `area` asks for; anything but the four sides
/// splits below.
pub open spec fn split_direction_of(area: DropArea) -> DockingZoneSplitDirection {
    match area {
        DropArea::North => DockingZoneSplitDirection::VerticallyBefore,
        DropArea::East => DockingZoneSplitDirection::HorizontallyAfter,
        DropArea::South => DockingZoneSplitDirection::VerticallyAfter,
        DropArea::West => DockingZoneSplitDirection::HorizontallyBefore,
        _ => DockingZoneSplitDirection::VerticallyAfter,
    }
}

pub fn split_direction(area: DropArea) -> (r: DockingZoneSplitDirection)
    ensures
        r == split_direction_of(area),
{
    match area {
        DropArea::North => DockingZoneSplitDirection::VerticallyBefore,
        DropArea::East => DockingZoneSplitDirection::HorizontallyAfter,
        DropArea::South => DockingZoneSplitDirection::VerticallyAfter,
        DropArea::West => DockingZoneSplitDirection::HorizontallyBefore,
        _ => DockingZoneSplitDirection::VerticallyAfter,
    }
}

/// The decision for a zone whose drop state is `state`, where `title_panel`
/// is the panel whose title is being dragged (`None` when the incoming
/// entity is not a floating panel's title). The highlight is cleared when the
/// tab bar is hovered, when no drag is over the zone, or when what is dragged
/// is not a panel title. Otherwise the drop area is computed from the
/// pointer (with no pointer known, the highlight is cleared): while entering
/// or hovering it is shown; on a drop, Center docks the panel into the zone
/// and any other area splits the zone towards that side.
pub open spec fn drop_action_of(state: DropZoneState, title_panel: Option<u64>, frame: ZoneFrame) -> DropAction {
    if frame.bar_hovered || state.phase == DropPhase::Inactive || state.phase == DropPhase::DropCanceled
        || state.phase == DropPhase::DroppableLeft || state.incoming is None || title_panel is None
        || state.position is None {
        DropAction::ClearHighlight
    } else {
        let area = drop_area_of(state.position->Some_0, frame.center, frame.size);
        let panel = title_panel->Some_0;
        if state.phase == DropPhase::DroppableEntered || state.phase == DropPhase::DroppableHover {
            DropAction::ShowHighlight(area)
        } else if area == DropArea::Center {
            DropAction::DockCenter(panel)
        } else {
            DropAction::Split(split_direction_of(area), panel)
        }
    }
}

pub fn drop_action(state: DropZoneState, title_panel: Option<u64>, frame: ZoneFrame) -> (r: DropAction)
    ensures
        r == drop_action_of(state, title_panel, frame),
{
    if frame.bar_hovered || state.phase == DropPhase::Inactive || state.phase == DropPhase::DropCanceled
        || state.phase == DropPhase::DroppableLeft || state.incoming.is_none() || title_panel.is_none() {
        return DropAction::ClearHighlight;
    }
    let (position, panel) = match (state.position, title_panel) {
        (Some(position), Some(panel)) => (position, panel),
        _ => {
            return DropAction::ClearHighlight;
        },
    };
    let area = calculate_drop_area(position, frame.center, frame.size);
    if state.phase == DropPhase::DroppableEntered || state.phase == DropPhase::DroppableHover {
        DropAction::ShowHighlight(area)
    } else if area == DropArea::Center {
        DropAction::DockCenter(panel)
    } else {
        DropAction::Split(split_direction(area), panel)
    }
}

/// The highlight shown for a drop on `area` of a zone `height` pixels high
/// with a tab bar `tab_bar_height` pixels high: Center covers the zone below
/// the tab bar, North and South the top and bottom halves, East and West the
/// right and left halves; anything else the whole zone.
pub open spec fn highlight_style_of(area: DropArea, height: i32, tab_bar_height: i32) -> HighlightStyle {
    let full = Val::Percent(100);
    let half = Val::Percent(50);
    let (width, h, top, left) = match area {
        DropArea::Center => (full, Val::Px((height - tab_bar_height) as i64), Val::Px(tab_bar_height as i64), Val::Auto),
        DropArea::North => (full, half, Val::Auto, Val::Auto),
        DropArea::East => (half, full, Val::Auto, half),
        DropArea::South => (full, half, half, Val::Auto),
        DropArea::West => (half, full, Val::Auto, Val::Auto),
        _ => (full, full, Val::Auto, Val::Auto),
    };
    HighlightStyle { visible: true, width, height: h, top, left }
}

pub fn highlight_style_for(area: DropArea, height: i32, tab_bar_height: i32) -> (r: HighlightStyle)
    ensures
        r == highlight_style_of(area, height, tab_bar_height),
{
    let full = Val::Percent(100);
    let half = Val::Percent(50);
    let (width, h, top, left) = match area {
        DropArea::Center => (
            full,
            Val::Px(height as i64 - tab_bar_height as i64),
            Val::Px(tab_bar_height as i64),
            Val::Auto,
        ),
        DropArea::North => (full, half, Val::Auto, Val::Auto),
        DropArea::East => (half, full, Val::Auto, half),
        DropArea::South => (full, half, half, Val::Auto),
        DropArea::West => (half, full, Val::Auto, Val::Auto),
        _ => (full, full, Val::Auto, Val::Auto),
    };
    HighlightStyle { visible: true, width, height: h, top, left }
}

/// `style` made transparent, its geometry kept.
pub open spec fn cleared(style: HighlightStyle) -> HighlightStyle {
    HighlightStyle { visible: false, ..style }
}

/// `new` is `old` after zone `z` has carried out `action`: the highlight is
/// shown or cleared, or the panel docked (into the zone itself, or into a new
/// zone split off it) and then the highlight cleared.
pub open spec fn drop_result(old: Seq<Node>, new: Seq<Node>, z: int, action: DropAction, frame: ZoneFrame) -> bool {
    match action {
        DropAction::ClearHighlight => highlight_set(old, new, z, cleared(style_at(old, z))),
        DropAction::ShowHighlight(area) => highlight_set(
            old,
            new,
            z,
            highlight_style_of(area, frame.size.y, frame.tab_bar_height),
        ),
        DropAction::DockCenter(panel) => exists|mid: Seq<Node>|
            tabs_set(old, mid, z, tabs_at(old, z).push(panel)) && highlight_set(
                mid,
                new,
                z,
                cleared(style_at(mid, z)),
            ),
        DropAction::Split(direction, panel) => exists|mid: Seq<Node>, nz: int|
            #[trigger] split_result(
                old,
                mid,
                DockingZoneSplit { docking_zone: z as usize, direction, panel_to_dock: Some(panel) },
                nz,
            ) && highlight_set(mid, new, z, cleared(style_at(mid, z))),
    }
}

/// A docking zone just created and then dropped onto at its centre holds the
/// dropped panel as one more tab, its highlight stays transparent, its size
/// is unchanged, and no node is added.
pub proof fn lemma_center_drop_after_create(
    s0: Seq<Node>,
    s1: Seq<Node>,
    s2: Seq<Node>,
    parent: int,
    config: SizedZoneConfig,
    remove_empty: bool,
    panel: Option<u64>,
    z: int,
    dropped: u64,
    frame: ZoneFrame,
)
    requires
        wf_nodes(s0),
        zone_created(s0, s1, parent, config, remove_empty, panel, z),
        drop_result(s1, s2, z, DropAction::DockCenter(dropped), frame),
    ensures
        tabs_at(s2, z) == tabs_at(s1, z).push(dropped),
        tabs_at(s2, z).len() == tabs_at(s1, z).len() + 1,
        !style_at(s1, z).visible,
        !style_at(s2, z).visible,
        s2.len() == s1.len(),
        s2[z].sized == s1[z].sized,
{
    let mid = choose|mid: Seq<Node>|
        tabs_set(s1, mid, z, tabs_at(s1, z).push(dropped)) && highlight_set(
            mid,
            s2,
            z,
            cleared(style_at(mid, z)),
        );
    assert(tab_container_at(s1, z) == z + 1);
    assert(highlight_at(s1, z) == z + 2);
    assert(mid[z] == s1[z]);
    assert(s2[z] == mid[z]);
    assert(s2[z + 1] == mid[z + 1]);
}

impl Layout {
    /// Makes the highlight of zone `z` transparent, keeping its geometry.
    pub fn clear_highlight(&mut self, z: usize) -> (r: Result<(), DockError>)
        requires
            old(self).wf(),
        ensures
            final(self).wf(),
            r is Err <==> !is_zone(old(self).nodes(), z as int),
            r is Err ==> final(self).nodes() == old(self).nodes(),
            r is Ok ==> highlight_set(
                old(self).nodes(),
                final(self).nodes(),
                z as int,
                cleared(style_at(old(self).nodes(), z as int)),
            ),
    {
        match self.highlight_style(z) {
            Some(style) => self.set_highlight(z, HighlightStyle { visible: false, ..style }),
            None => Err(DockError::InvalidTarget),
        }
    }

    /// Reacts to a change of the drop state of zone `z`: decides what it calls
    /// for (see [`drop_action`]) and carries it out. Returns the decision;
    /// fails, changing nothing, if `z` is not a docking zone.
    pub fn handle_docking_zone_drop_zone_change(
        &mut self,
        z: usize,
        state: DropZoneState,
        title_panel: Option<u64>,
        frame: ZoneFrame,
    ) -> (r: Result<DropAction, DockError>)
        requires
            old(self).wf(),
            old(self).nodes().len() + 4 <= usize::MAX,
        ensures
            final(self).wf(),
            r is Err <==> !is_zone(old(self).nodes(), z as int),
            r is Err ==> final(self).nodes() == old(self).nodes(),
            r matches Ok(action) ==> action == drop_action_of(state, title_panel, frame) && drop_result(
                old(self).nodes(),
                final(self).nodes(),
                z as int,
                action,
                frame,
            ),
    {
        if !self.is_docking_zone(z) {
            return Err(DockError::InvalidTarget);
        }
        let action = drop_action(state, title_panel, frame);
        match action {
            DropAction::ClearHighlight => {
                let _ = self.clear_highlight(z);
            },
            DropAction::ShowHighlight(area) => {
                let style = highlight_style_for(area, frame.size.y, frame.tab_bar_height);
                let _ = self.set_highlight(z, style);
            },
            DropAction::DockCenter(panel) => {
                let _ = self.dock_panel(z, panel);
                let ghost mid = self.nodes();
                let _ = self.clear_highlight(z);
                proof {
                    assert(highlight_set(mid, self.nodes(), z as int, cleared(style_at(mid, z as int))));
                }
            },
            DropAction::Split(direction, panel) => {
                let split = DockingZoneSplit { docking_zone: z, direction, panel_to_dock: Some(panel) };
                let res = split.apply(self);
                let ghost mid = self.nodes();
                proof {
                    assert(is_zone(mid, z as int)) by {
                        crate::layout::lemma_zone_facts(old(self).nodes(), z as int);
                    }
                }
                let _ = self.clear_highlight(z);
                proof {
                    let nz = res->Ok_0 as int;
                    assert(split_result(old(self).nodes(), mid, split, nz));
                    assert(highlight_set(mid, self.nodes(), z as int, cleared(style_at(mid, z as int))));
                }
            },
        }
        Ok(action)
    }
}

} // verus!
