//! Applies a colour theme to an i3 window manager configuration file.
pub mod text;
pub mod theme;
pub mod format;
pub mod writer;
pub mod laws;
