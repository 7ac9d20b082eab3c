//! Layout and rendering engine for a terminal status line: widget outputs and
//! a styling configuration in, width-bounded ANSI-styled lines out.
//!
//! - [`text`]: string helpers, display width, escape stripping.
//! - [`render`]: color specifications and their escape sequences per color depth.
//! - [`theme`]: named role-to-color mappings.
//! - [`widgets`]: session data, the widgets and their dispatch table.
//! - [`layout`]: standard, flex and powerline assembly, alignment, the whole render.
//! - [`presets`]: the base configuration and the named presets.
//! - [`license`]: license key format, checksum and validation decisions.
pub mod layout;
pub mod license;
pub mod presets;
pub mod render;
pub mod text;
pub mod theme;
pub mod widgets;
