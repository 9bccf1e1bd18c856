use sickle_ui::geometry::{calculate_drop_area, DropArea, Point};
use sickle_ui::highlight::{drop_action, highlight_style_for, DropAction, DropPhase, DropZoneState, ZoneFrame};
use sickle_ui::layout::{
    DockError, DockingZone, DockingZoneHighlight, FlexDirection, HighlightStyle, Layout, RemoveEmptyDockingZone,
    SizedZone, SizedZoneConfig, Val, PLACEHOLDER,
};
use sickle_ui::resize_handles::{resize_handles_visible, should_update_resize_handles, DragState};
use sickle_ui::lifecycle::should_process_empty_docking_zones;
use sickle_ui::split::{split_plan, DockingZoneSplit, DockingZoneSplitDirection};
use sickle_ui::theme::{Contrast, Scheme};

fn pt(x: i32, y: i32) -> Point {
    Point { x, y }
}

fn cfg(size: u32, min_size: u32) -> SizedZoneConfig {
    SizedZoneConfig { size, min_size }
}

fn size_of(layout: &Layout, i: usize) -> u32 {
    layout.sized_of(i).map(|s| s.size).unwrap_or(0)
}

fn frame() -> ZoneFrame {
    ZoneFrame { center: pt(300, 300), size: pt(600, 600), tab_bar_height: 30, bar_hovered: false }
}

fn state(phase: DropPhase, position: Option<Point>) -> DropZoneState {
    DropZoneState { phase, position, incoming: Some(99) }
}

const ALL_DIRECTIONS: [DockingZoneSplitDirection; 4] = [
    DockingZoneSplitDirection::VerticallyBefore,
    DockingZoneSplitDirection::VerticallyAfter,
    DockingZoneSplitDirection::HorizontallyBefore,
    DockingZoneSplitDirection::HorizontallyAfter,
];

const ALL_LAYOUTS: [FlexDirection; 4] = [
    FlexDirection::Row,
    FlexDirection::Column,
    FlexDirection::RowReverse,
    FlexDirection::ColumnReverse,
];

#[test]
fn central_region_is_center() {
    let c = pt(300, 200);
    let s = pt(600, 120);
    // one sixth of 600 is 100, of 120 is 20
    assert_eq!(calculate_drop_area(pt(300, 200), c, s), DropArea::Center);
    assert_eq!(calculate_drop_area(pt(400, 220), c, s), DropArea::Center);
    assert_eq!(calculate_drop_area(pt(200, 180), c, s), DropArea::Center);
    assert_eq!(calculate_drop_area(pt(350, 190), c, s), DropArea::Center);
}

#[test]
fn right_of_center_is_east_whatever_dy() {
    let c = pt(300, 200);
    let s = pt(600, 120);
    assert_eq!(calculate_drop_area(pt(401, 200), c, s), DropArea::East);
    assert_eq!(calculate_drop_area(pt(401, 0), c, s), DropArea::East);
    assert_eq!(calculate_drop_area(pt(590, 400), c, s), DropArea::East);
}

#[test]
fn sides_are_classified() {
    let c = pt(300, 200);
    let s = pt(600, 120);
    assert_eq!(calculate_drop_area(pt(199, 200), c, s), DropArea::West);
    assert_eq!(calculate_drop_area(pt(199, 0), c, s), DropArea::West);
    assert_eq!(calculate_drop_area(pt(300, 179), c, s), DropArea::North);
    assert_eq!(calculate_drop_area(pt(300, 221), c, s), DropArea::South);
}

#[test]
fn extreme_coordinates_do_not_overflow() {
    let c = pt(i32::MIN, i32::MAX);
    let s = pt(i32::MAX, i32::MAX);
    assert_eq!(calculate_drop_area(pt(i32::MAX, i32::MAX), c, s), DropArea::East);
    assert_eq!(calculate_drop_area(pt(i32::MIN, i32::MIN), c, s), DropArea::North);
}

#[test]
fn split_table_is_explicit() {
    assert_eq!(split_plan(FlexDirection::Row, DockingZoneSplitDirection::VerticallyBefore), (true, true));
    assert_eq!(split_plan(FlexDirection::Row, DockingZoneSplitDirection::HorizontallyAfter), (false, false));
    assert_eq!(split_plan(FlexDirection::Column, DockingZoneSplitDirection::VerticallyAfter), (false, false));
    assert_eq!(split_plan(FlexDirection::Column, DockingZoneSplitDirection::HorizontallyBefore), (true, true));
    assert_eq!(split_plan(FlexDirection::RowReverse, DockingZoneSplitDirection::VerticallyAfter), (true, true));
    assert_eq!(split_plan(FlexDirection::RowReverse, DockingZoneSplitDirection::HorizontallyAfter), (false, true));
    assert_eq!(split_plan(FlexDirection::ColumnReverse, DockingZoneSplitDirection::VerticallyBefore), (false, false));
    assert_eq!(split_plan(FlexDirection::ColumnReverse, DockingZoneSplitDirection::HorizontallyAfter), (true, true));
}

#[test]
fn vertical_split_in_row_injects_wrapper() {
    let mut layout = Layout::new(FlexDirection::Row);
    let root = layout.root();
    let left = layout.docking_zone(root, cfg(0, 5), false, None).unwrap();
    let z = layout.docking_zone(root, cfg(100, 10), false, Some(1)).unwrap();
    let split = DockingZoneSplit {
        docking_zone: z,
        direction: DockingZoneSplitDirection::VerticallyAfter,
        panel_to_dock: Some(7),
    };
    let nz = split.apply(&mut layout).unwrap();
    let root_children = layout.children_of(root).clone();
    assert_eq!(root_children.len(), 2);
    assert_eq!(root_children[0], left);
    let w = root_children[1];
    assert!(!layout.is_docking_zone(w));
    assert_eq!(layout.sized_of(w), Some(SizedZone { size: 100, min_size: 10 }));
    assert_eq!(layout.direction_of(w), FlexDirection::Column);
    assert_eq!(layout.children_of(w).clone(), vec![z, nz]);
    assert_eq!(layout.parent_of(z), Some(w));
    assert_eq!(layout.sized_of(z), Some(SizedZone { size: 50, min_size: 10 }));
    assert_eq!(layout.sized_of(nz), Some(SizedZone { size: 50, min_size: 10 }));
    assert_eq!(layout.tabs(nz).unwrap().clone(), vec![7]);
    assert_eq!(layout.tabs(z).unwrap().clone(), vec![1]);
    assert!(layout.removes_when_empty(nz));
}

#[test]
fn wrapper_before_puts_new_zone_first() {
    let mut layout = Layout::new(FlexDirection::Row);
    let root = layout.root();
    let z = layout.docking_zone(root, cfg(100, 0), false, None).unwrap();
    let split = DockingZoneSplit {
        docking_zone: z,
        direction: DockingZoneSplitDirection::VerticallyBefore,
        panel_to_dock: None,
    };
    let nz = split.apply(&mut layout).unwrap();
    let w = layout.children_of(root)[0];
    assert_eq!(layout.children_of(w).clone(), vec![nz, z]);
    assert_eq!(layout.tabs(nz).unwrap().len(), 0);
    assert!(!layout.removes_when_empty(nz));
}

#[test]
fn split_along_axis_inserts_sibling() {
    let mut layout = Layout::new(FlexDirection::Column);
    let root = layout.root();
    let a = layout.docking_zone(root, cfg(75, 0), false, None).unwrap();
    let z = layout.docking_zone(root, cfg(25, 3), false, None).unwrap();
    let split = DockingZoneSplit {
        docking_zone: z,
        direction: DockingZoneSplitDirection::VerticallyAfter,
        panel_to_dock: Some(4),
    };
    let nz = split.apply(&mut layout).unwrap();
    assert_eq!(layout.children_of(root).clone(), vec![a, z, nz]);
    assert_eq!(layout.sized_of(z), Some(SizedZone { size: 13, min_size: 3 }));
    assert_eq!(layout.sized_of(nz), Some(SizedZone { size: 12, min_size: 3 }));
    assert_eq!(layout.parent_of(nz), Some(root));

    let split = DockingZoneSplit {
        docking_zone: a,
        direction: DockingZoneSplitDirection::VerticallyBefore,
        panel_to_dock: None,
    };
    let na = split.apply(&mut layout).unwrap();
    assert_eq!(layout.children_of(root).clone(), vec![na, a, z, nz]);
    assert_eq!(size_of(&layout, na), 37);
    assert_eq!(size_of(&layout, a), 38);
}

#[test]
fn reversed_layout_swaps_before_and_after() {
    let mut layout = Layout::new(FlexDirection::RowReverse);
    let root = layout.root();
    let z = layout.docking_zone(root, cfg(100, 0), false, None).unwrap();
    let split = DockingZoneSplit {
        docking_zone: z,
        direction: DockingZoneSplitDirection::HorizontallyAfter,
        panel_to_dock: None,
    };
    let nz = split.apply(&mut layout).unwrap();
    assert_eq!(layout.children_of(root).clone(), vec![nz, z]);
}

#[test]
fn split_conserves_sizes_in_every_combination() {
    for layout_dir in ALL_LAYOUTS {
        for direction in ALL_DIRECTIONS {
            let mut layout = Layout::new(layout_dir);
            let root = layout.root();
            let a = layout.docking_zone(root, cfg(40, 0), false, None).unwrap();
            let z = layout.docking_zone(root, cfg(60, 0), false, None).unwrap();
            let before: u32 = layout.children_of(root).iter().map(|&c| size_of(&layout, c)).sum();
            let (inject, _) = split_plan(layout_dir, direction);
            let split = DockingZoneSplit { docking_zone: z, direction, panel_to_dock: Some(3) };
            let nz = split.apply(&mut layout).unwrap();
            let after: u32 = layout.children_of(root).iter().map(|&c| size_of(&layout, c)).sum();
            assert_eq!(before, 100);
            assert_eq!(after, before);
            assert_eq!(layout.children_of(root)[0], a);
            if inject {
                let w = layout.children_of(root)[1];
                let inner: u32 = layout.children_of(w).iter().map(|&c| size_of(&layout, c)).sum();
                assert_eq!(inner, 100);
                assert_eq!(size_of(&layout, w), 60);
                assert!(layout.children_of(w).contains(&nz));
            } else {
                assert_eq!(size_of(&layout, z) + size_of(&layout, nz), 60);
            }
        }
    }
}

#[test]
fn split_of_non_zone_fails_unchanged() {
    let mut layout = Layout::new(FlexDirection::Row);
    let root = layout.root();
    let z = layout.docking_zone(root, cfg(100, 0), false, None).unwrap();
    let n = layout.len();
    for target in [root, z + 1, z + 2, 17] {
        let split = DockingZoneSplit {
            docking_zone: target,
            direction: DockingZoneSplitDirection::VerticallyAfter,
            panel_to_dock: None,
        };
        assert_eq!(split.apply(&mut layout), Err(DockError::InvalidTarget));
    }
    assert_eq!(layout.len(), n);
    assert_eq!(layout.children_of(root).clone(), vec![z]);
}

#[test]
fn docking_zone_builds_zone_tabs_and_highlight() {
    let mut layout = Layout::new(FlexDirection::Row);
    let root = layout.root();
    let z = layout.docking_zone(root, cfg(100, 20), true, Some(5)).unwrap();
    let links = layout.zone_links(z).unwrap();
    assert_eq!(links.tab_container, z + 1);
    assert_eq!(links.zone_highlight, z + 2);
    assert_eq!(layout.children_of(z).clone(), vec![z + 1, z + 2]);
    assert_eq!(layout.parent_of(z + 1), Some(z));
    assert_eq!(layout.parent_of(z + 2), Some(z));
    assert_eq!(layout.tabs(z).unwrap().clone(), vec![5]);
    assert!(layout.removes_when_empty(z));
    let style = layout.highlight_style(z).unwrap();
    assert!(!style.visible);
    assert_eq!(style.width, Val::Percent(100));
    assert_eq!(style.height, Val::Percent(100));
    assert_eq!(layout.sized_of(z), Some(SizedZone { size: 100, min_size: 20 }));
}

#[test]
fn docking_zone_needs_a_region() {
    let mut layout = Layout::new(FlexDirection::Row);
    let root = layout.root();
    let z = layout.docking_zone(root, cfg(100, 0), false, None).unwrap();
    assert_eq!(layout.docking_zone(z, cfg(50, 0), false, None), Err(DockError::InvalidParent));
    assert_eq!(layout.docking_zone(42, cfg(50, 0), false, None), Err(DockError::InvalidParent));
    assert_eq!(layout.len(), 4);
}

#[test]
fn center_drop_merges_into_existing_tabs() {
    let mut layout = Layout::new(FlexDirection::Row);
    let root = layout.root();
    let z = layout.docking_zone(root, cfg(100, 0), false, Some(1)).unwrap();
    let n = layout.len();
    let action = layout
        .handle_docking_zone_drop_zone_change(z, state(DropPhase::Dropped, Some(pt(300, 300))), Some(8), frame())
        .unwrap();
    assert_eq!(action, DropAction::DockCenter(8));
    assert_eq!(layout.tabs(z).unwrap().clone(), vec![1, 8]);
    assert_eq!(layout.len(), n);
    assert_eq!(layout.children_of(root).clone(), vec![z]);
    assert_eq!(layout.sized_of(z), Some(SizedZone { size: 100, min_size: 0 }));
    assert!(!layout.highlight_style(z).unwrap().visible);
}

#[test]
fn create_then_center_drop_adds_one_tab() {
    let mut layout = Layout::new(FlexDirection::Column);
    let root = layout.root();
    let z = layout.docking_zone(root, cfg(100, 0), true, None).unwrap();
    let count = layout.tabs(z).unwrap().len();
    layout
        .handle_docking_zone_drop_zone_change(z, state(DropPhase::Dropped, Some(pt(310, 290))), Some(3), frame())
        .unwrap();
    assert_eq!(layout.tabs(z).unwrap().len(), count + 1);
    assert!(!layout.highlight_style(z).unwrap().visible);
}

#[test]
fn side_drop_splits_zone() {
    let mut layout = Layout::new(FlexDirection::Row);
    let root = layout.root();
    let z = layout.docking_zone(root, cfg(100, 0), false, Some(1)).unwrap();
    let action = layout
        .handle_docking_zone_drop_zone_change(z, state(DropPhase::Dropped, Some(pt(590, 300))), Some(8), frame())
        .unwrap();
    assert_eq!(action, DropAction::Split(DockingZoneSplitDirection::HorizontallyAfter, 8));
    let children = layout.children_of(root).clone();
    assert_eq!(children.len(), 2);
    assert_eq!(children[0], z);
    assert_eq!(layout.tabs(children[1]).unwrap().clone(), vec![8]);
    assert_eq!(size_of(&layout, z), 50);
    assert_eq!(size_of(&layout, children[1]), 50);
    assert!(!layout.highlight_style(z).unwrap().visible);
}

#[test]
fn hover_shows_highlight_geometry() {
    let mut layout = Layout::new(FlexDirection::Row);
    let root = layout.root();
    let z = layout.docking_zone(root, cfg(100, 0), false, None).unwrap();
    let action = layout
        .handle_docking_zone_drop_zone_change(z, state(DropPhase::DroppableHover, Some(pt(590, 300))), Some(8), frame())
        .unwrap();
    assert_eq!(action, DropAction::ShowHighlight(DropArea::East));
    let style = layout.highlight_style(z).unwrap();
    assert_eq!(
        style,
        HighlightStyle { visible: true, width: Val::Percent(50), height: Val::Percent(100), top: Val::Auto, left: Val::Percent(50) }
    );
    layout
        .handle_docking_zone_drop_zone_change(z, state(DropPhase::DroppableEntered, Some(pt(300, 300))), Some(8), frame())
        .unwrap();
    let style = layout.highlight_style(z).unwrap();
    assert_eq!(
        style,
        HighlightStyle { visible: true, width: Val::Percent(100), height: Val::Px(570), top: Val::Px(30), left: Val::Auto }
    );
    let action = layout
        .handle_docking_zone_drop_zone_change(z, state(DropPhase::DroppableLeft, Some(pt(300, 300))), Some(8), frame())
        .unwrap();
    assert_eq!(action, DropAction::ClearHighlight);
    let cleared = layout.highlight_style(z).unwrap();
    assert!(!cleared.visible);
    assert_eq!(cleared.height, Val::Px(570));
    assert_eq!(layout.tabs(z).unwrap().len(), 0);
}

#[test]
fn highlight_geometry_per_area() {
    let full = Val::Percent(100);
    let half = Val::Percent(50);
    let n = highlight_style_for(DropArea::North, 200, 20);
    assert_eq!((n.width, n.height, n.top, n.left), (full, half, Val::Auto, Val::Auto));
    let s = highlight_style_for(DropArea::South, 200, 20);
    assert_eq!((s.width, s.height, s.top, s.left), (full, half, half, Val::Auto));
    let w = highlight_style_for(DropArea::West, 200, 20);
    assert_eq!((w.width, w.height, w.top, w.left), (half, full, Val::Auto, Val::Auto));
    let c = highlight_style_for(DropArea::Center, 200, 20);
    assert_eq!((c.width, c.height, c.top, c.left), (full, Val::Px(180), Val::Px(20), Val::Auto));
    let u = highlight_style_for(DropArea::Unset, 200, 20);
    assert_eq!((u.width, u.height, u.top, u.left), (full, full, Val::Auto, Val::Auto));
    assert!(u.visible);
}

#[test]
fn drop_action_clears_when_not_accepted() {
    let f = frame();
    let here = Some(pt(300, 300));
    for phase in [DropPhase::Inactive, DropPhase::DropCanceled, DropPhase::DroppableLeft] {
        assert_eq!(drop_action(state(phase, here), Some(1), f), DropAction::ClearHighlight);
    }
    assert_eq!(drop_action(state(DropPhase::Dropped, here), None, f), DropAction::ClearHighlight);
    let nothing = DropZoneState { phase: DropPhase::Dropped, position: here, incoming: None };
    assert_eq!(drop_action(nothing, Some(1), f), DropAction::ClearHighlight);
    let hovered = ZoneFrame { bar_hovered: true, ..f };
    assert_eq!(drop_action(state(DropPhase::Dropped, here), Some(1), hovered), DropAction::ClearHighlight);
    assert_eq!(drop_action(state(DropPhase::DroppableHover, None), Some(1), f), DropAction::ClearHighlight);
    assert_eq!(
        drop_action(state(DropPhase::Dropped, Some(pt(300, 10))), Some(1), f),
        DropAction::Split(DockingZoneSplitDirection::VerticallyBefore, 1)
    );
    assert_eq!(
        drop_action(state(DropPhase::Dropped, Some(pt(300, 590))), Some(1), f),
        DropAction::Split(DockingZoneSplitDirection::VerticallyAfter, 1)
    );
    assert_eq!(
        drop_action(state(DropPhase::Dropped, Some(pt(10, 590))), Some(1), f),
        DropAction::Split(DockingZoneSplitDirection::HorizontallyBefore, 1)
    );
}

#[test]
fn handler_rejects_non_zone() {
    let mut layout = Layout::new(FlexDirection::Row);
    let root = layout.root();
    let r = layout.handle_docking_zone_drop_zone_change(root, state(DropPhase::Dropped, Some(pt(0, 0))), Some(1), frame());
    assert_eq!(r, Err(DockError::InvalidTarget));
    assert_eq!(layout.dock_panel(root, 1), Err(DockError::InvalidTarget));
    assert_eq!(layout.clear_highlight(5), Err(DockError::InvalidTarget));
}

#[test]
fn emptied_marked_zone_is_removed() {
    let mut layout = Layout::new(FlexDirection::Row);
    let root = layout.root();
    let keep = layout.docking_zone(root, cfg(50, 0), true, Some(2)).unwrap();
    let z = layout.docking_zone(root, cfg(50, 0), true, Some(1)).unwrap();
    let links = layout.zone_links(z).unwrap();
    assert_eq!(layout.remove_tab(z, 0), Ok(1));
    assert!(layout.is_alive(z));
    layout.remove_empty_docking_zones();
    assert!(!layout.is_alive(z));
    assert!(!layout.is_alive(links.tab_container));
    assert!(!layout.is_alive(links.zone_highlight));
    assert!(!layout.is_docking_zone(z));
    assert_eq!(layout.children_of(root).clone(), vec![keep]);
    assert!(layout.is_docking_zone(keep));
}

#[test]
fn unmarked_empty_zone_stays() {
    let mut layout = Layout::new(FlexDirection::Row);
    let root = layout.root();
    let z = layout.docking_zone(root, cfg(100, 0), false, Some(1)).unwrap();
    assert_eq!(layout.remove_tab(z, 0), Ok(1));
    layout.remove_empty_docking_zones();
    assert!(layout.is_docking_zone(z));
    assert_eq!(layout.children_of(root).clone(), vec![z]);
}

#[test]
fn cleanup_twice_changes_nothing_more() {
    let mut layout = Layout::new(FlexDirection::Row);
    let root = layout.root();
    let a = layout.docking_zone(root, cfg(50, 0), true, None).unwrap();
    let b = layout.docking_zone(root, cfg(50, 0), true, Some(4)).unwrap();
    layout.remove_empty_docking_zones();
    let n = layout.len();
    let snapshot: Vec<(bool, Option<usize>, Vec<usize>)> =
        (0..n).map(|i| (layout.is_alive(i), layout.parent_of(i), layout.children_of(i).clone())).collect();
    assert!(!layout.is_alive(a));
    assert!(layout.is_alive(b));
    layout.remove_empty_docking_zones();
    let again: Vec<(bool, Option<usize>, Vec<usize>)> =
        (0..n).map(|i| (layout.is_alive(i), layout.parent_of(i), layout.children_of(i).clone())).collect();
    assert_eq!(layout.len(), n);
    assert_eq!(snapshot, again);
}

#[test]
fn remove_tab_errors() {
    let mut layout = Layout::new(FlexDirection::Row);
    let root = layout.root();
    let z = layout.docking_zone(root, cfg(100, 0), true, Some(1)).unwrap();
    assert_eq!(layout.remove_tab(z, 1), Err(DockError::NoSuchTab));
    assert_eq!(layout.remove_tab(root, 0), Err(DockError::InvalidTarget));
    assert_eq!(layout.dock_panel(z, 2), Ok(()));
    assert_eq!(layout.remove_tab(z, 0), Ok(1));
    assert_eq!(layout.tabs(z).unwrap().clone(), vec![2]);
}

#[test]
fn cleanup_gate() {
    assert!(!should_process_empty_docking_zones(0));
    assert!(should_process_empty_docking_zones(3));
}

#[test]
fn scheme_key() {
    let s = Scheme::default();
    assert_eq!(s, Scheme::Dark(Contrast::Standard));
    assert!(s.is_dark());
    assert!(!s.is_light());
    let l = Scheme::Light(Contrast::High);
    assert!(l.is_light());
    assert!(!l.is_dark());
    assert_eq!(Contrast::default(), Contrast::Standard);
}

#[test]
fn resize_handles_follow_drags() {
    let idle = vec![DragState::Inactive, DragState::Inactive];
    assert!(!should_update_resize_handles(&idle));
    assert!(resize_handles_visible(&idle));
    let dragging = vec![DragState::Inactive, DragState::Dragging];
    assert!(should_update_resize_handles(&dragging));
    assert!(!resize_handles_visible(&dragging));
    let starting = vec![DragState::DragStart];
    assert!(!resize_handles_visible(&starting));
    let ended = vec![DragState::DragEnd];
    assert!(should_update_resize_handles(&ended));
    assert!(resize_handles_visible(&ended));
    assert!(!should_update_resize_handles(&Vec::new()));
    assert!(resize_handles_visible(&Vec::new()));
}

#[test]
fn link_defaults_are_placeholders() {
    let d = DockingZone::default();
    assert_eq!(d.tab_container, PLACEHOLDER);
    assert_eq!(d.zone_highlight, PLACEHOLDER);
    assert_eq!(DockingZoneHighlight::default().zone, PLACEHOLDER);
    assert_eq!(RemoveEmptyDockingZone::default().zone, PLACEHOLDER);
    assert_eq!(DropArea::default(), DropArea::Unset);
}
