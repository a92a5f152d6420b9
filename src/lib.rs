//! Verified core of a docking-tab viewport: the tab registry kept in an
//! `egui_dock` tree, the render-target size bookkeeping, the dispatch that
//! decides what each tab shows, and the integer model of the cube's spin.

pub mod registry;
pub mod spin;
pub mod tab;
pub mod texture;

