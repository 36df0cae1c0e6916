//! Settings of a tiling X11 desktop built on the penrose window manager:
//! workspaces, border colours, layouts, hooks and key bindings, as plain
//! values with the checks they must pass before the window manager starts.

pub mod bindings;
pub mod color;
pub mod config;
pub mod hooks;
pub mod texts;
