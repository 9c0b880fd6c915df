//! Routing of a single directional focus move across nested interactive
//! surfaces: a window manager, a terminal multiplexer, an editor's window
//! splits, a terminal emulator's pane grid, and a nested multiplexer
//! session.
//!
//! The heart of the crate is the stateless resolver in [`resolver`]: it
//! walks the identities the [`identity`] decoder reads out of the focused
//! surface's title, consults each layer's boundary oracle in a fixed
//! precedence order, and stops at the first layer that absorbs the move,
//! falling back to the host window manager when every inner layer reports
//! an edge.

pub mod direction;
pub mod focused;
pub mod identity;
pub mod nvim;
pub mod repo_uri;
pub mod resolver;
pub mod strutil;
pub mod tmux;
pub mod wezterm;
pub mod zellij;
