//! What one frame hands back to the platform: cursor, clipboard, queued
//! paint commands, texture changes and the surviving viewport records.

use crate::geom::Rect;
use crate::ids::ViewportId;
use crate::viewport::ViewportCommand;
use crate::viewport::ViewportOutput;
use vstd::prelude::*;

verus! {

/// Cursor icon requested for the next frame.
#[derive(Clone, Copy, PartialEq, Eq, Structural, Debug)]
pub enum CursorIcon {
    Default,
    PointingHand,
    Progress,
    Text,
    Crosshair,
}

/// A request to open a URL in the host browser.
#[derive(Clone, PartialEq, Eq, Debug)]
pub struct OpenUrl {
    pub url: String,
    pub new_tab: bool,
}

/// Host-facing output accumulated during one frame of one surface.
#[derive(Debug)]
pub struct PlatformOutput {
    /// The cursor icon to show.
    pub cursor_icon: CursorIcon,
    /// Text to place on the clipboard; empty means none.
    pub copied_text: String,
    /// URL to open, if any.
    pub open_url: Option<OpenUrl>,
}

impl PlatformOutput {
    pub fn empty() -> (r: PlatformOutput)
        ensures
            r.cursor_icon == CursorIcon::Default,
            r.copied_text@ == Seq::<char>::empty(),
            r.open_url is None,
    {
        PlatformOutput { cursor_icon: CursorIcon::Default, copied_text: String::new(), open_url: None }
    }
}

/// One queued paint command: an opaque shape handle with its clip area.
///
/// What the handle denotes (mesh, text, image) belongs to the rendering
/// collaborator; the engine only orders and routes these.
#[derive(Clone, Copy, PartialEq, Eq, Structural, Debug)]
pub struct ClippedShape {
    pub clip_rect: Rect,
    pub shape: u64,
}

/// An allocated texture: its handle and its size in physical pixels.
#[derive(Clone, Copy, PartialEq, Eq, Structural, Debug)]
pub struct TextureRecord {
    pub id: u64,
    pub width: u64,
    pub height: u64,
}

/// Texture changes since the previous frame.
#[derive(Debug)]
pub struct TexturesDelta {
    /// Textures allocated or updated, in allocation order.
    pub set: Vec<TextureRecord>,
    /// Handles freed.
    pub free: Vec<u64>,
}

impl TexturesDelta {
    pub fn empty() -> (r: TexturesDelta)
        ensures
            r.set@ == Seq::<TextureRecord>::empty(),
            r.free@ == Seq::<u64>::empty(),
    {
        TexturesDelta { set: Vec::new(), free: Vec::new() }
    }
}

/// Everything `end_frame` returns to the caller.
pub struct FullOutput {
    /// Host-facing output of the ended surface.
    pub platform_output: PlatformOutput,
    /// Texture changes drained this frame.
    pub textures_delta: TexturesDelta,
    /// Queued paint commands, ordered back to front by layer z-order.
    pub shapes: Vec<ClippedShape>,
    /// The registered viewport records after garbage collection, for the
    /// host to realize, resize or destroy native surfaces.
    pub viewports: Vec<ViewportOutput>,
    /// Queued cross-surface commands; non-empty only when the outermost
    /// frame ended, so a nested frame cannot re-enter the host.
    pub viewport_commands: Vec<(ViewportId, ViewportCommand)>,
}

} // verus!
