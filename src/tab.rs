use crate::texture::{size_fits, synced, ViewportTexture};
use vstd::prelude::*;
use vstd::string::StringExecFns;

verus! {

/// What a tab is, decided once from its name when it is looked at.
pub enum TabKind {
    /// The live render of the scene.
    Viewport,
    /// The controls that edit the cube.
    SceneControl,
    /// Any other tab, which shows its own name.
    Generic(String),
}

/// What a tab draws this frame.
pub enum TabDraw {
    /// The render target, shown at the panel's size.
    ViewportImage { width: u32, height: u32 },
    /// A colour control for the cube, beside a caption.
    ColorEditor { caption: String },
    /// A plain text label.
    Label { text: String },
}

/// The kind that a tab name stands for.
pub open spec fn kind_matches(name: Seq<char>, k: TabKind) -> bool {
    if name == "Viewport"@ {
        k is Viewport
    } else if name == "Scene Control"@ {
        k is SceneControl
    } else {
        k matches TabKind::Generic(n) && n@ == name
    }
}

/// The caption beside the cube's colour control.
pub open spec fn color_caption() -> Seq<char> {
    "Edit Cube Color:"@
}

/// The label text of a tab with no special role.
pub open spec fn generic_label(name: Seq<char>) -> Seq<char> {
    "Content of "@ + name
}

/// Classifies a tab by its name.
pub fn classify(name: &str) -> (k: TabKind)
    ensures
        kind_matches(name@, k),
{
    let n = String::from_str(name);
    if n == String::from_str("Viewport") {
        TabKind::Viewport
    } else if n == String::from_str("Scene Control") {
        TabKind::SceneControl
    } else {
        TabKind::Generic(n)
    }
}

/// Decides what a tab draws inside a panel of `panel_w` by `panel_h` pixels.
/// The viewport first brings the render target to the panel's size; no
/// other tab touches it. Every tab kind draws something.
pub fn render_tab(
    kind: &TabKind,
    texture: &mut ViewportTexture,
    panel_w: u32,
    panel_h: u32,
) -> (d: TabDraw)
    requires
        kind is Viewport ==> size_fits(*old(texture), panel_w, panel_h),
    ensures
        match kind {
            TabKind::Viewport => {
                &&& *final(texture) == synced(*old(texture), panel_w, panel_h)
                &&& d == (TabDraw::ViewportImage { width: panel_w, height: panel_h })
            },
            TabKind::SceneControl => {
                &&& *final(texture) == *old(texture)
                &&& d matches TabDraw::ColorEditor { caption } && caption@ == color_caption()
            },
            TabKind::Generic(name) => {
                &&& *final(texture) == *old(texture)
                &&& d matches TabDraw::Label { text } && text@ == generic_label(name@)
            },
        },
{
    match kind {
        TabKind::Viewport => {
            texture.sync_size(panel_w, panel_h);
            TabDraw::ViewportImage { width: panel_w, height: panel_h }
        },
        TabKind::SceneControl => TabDraw::ColorEditor { caption: String::from_str("Edit Cube Color:") },
        TabKind::Generic(name) => {
            let mut text = String::from_str("Content of ");
            text.append(name.as_str());
            TabDraw::Label { text }
        },
    }
}

} // verus!
