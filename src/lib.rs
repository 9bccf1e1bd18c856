//! Docking-panel layout engine: classification of drop positions, drop
//! highlight decisions, and the verified restructuring of a layout tree of
//! docking zones.
use vstd::prelude::*;

pub mod geometry;
pub mod highlight;
pub mod layout;
pub mod lifecycle;
pub mod resize_handles;
pub mod split;
pub mod theme;
pub mod theme_colors;

pub use geometry::{calculate_drop_area, DropArea, Point};
pub use highlight::{drop_action, DropAction, DropPhase, DropZoneState, ZoneFrame};
pub use layout::{
    DockError, DockingZone, DockingZoneHighlight, FlexDirection, HighlightStyle, Layout,
    RemoveEmptyDockingZone, SizedZone, SizedZoneConfig, Val,
};
pub use lifecycle::should_process_empty_docking_zones;
pub use split::{DockingZoneSplit, DockingZoneSplitDirection};
pub use theme::{Contrast, Scheme};

verus! {

} // verus!
