//! Core state engine of an immediate-mode GUI toolkit.
//!
//! The crate models the per-frame machinery that a widget toolkit needs:
//! a shared context advanced by matched `begin_frame` / `end_frame` calls,
//! a registry of nested rendering surfaces ("viewports"), a repaint-request
//! scheduler, and the arbiter that decides which widget owns the pointer
//! when hit-test areas overlap.
//!
//! Geometry is carried in integer logical units throughout, so every rule
//! (hit testing, occlusion, duplicate-id detection, viewport garbage
//! collection) is stated and proved exactly.

pub mod arbiter;
pub mod dict;
pub mod frame_state;
pub mod geom;
pub mod handle;
pub mod ids;
pub mod input;
pub mod laws;
pub mod layers;
pub mod memory;
pub mod output;
pub mod params;
pub mod repaint;
pub mod response;
pub mod state;
pub mod uri;
pub mod viewport;

pub use handle::Context;
pub use params::ImageProcessingParameter;
pub use params::ParamError;
pub use uri::is_supported_uri;
pub use uri::is_unsupported_mime;

pub use geom::Pos;
pub use geom::Rect;
pub use geom::Vec2;
