//! Interaction and rendering core of a terminal database client: the
//! keybinding resolver, the action vocabulary, the virtualized scrolling
//! viewport for result grids, and the decisions of the dispatch loop.

pub mod action;
pub mod buffer;
pub mod focus;
pub mod keymap;
pub mod scroll_table;
pub mod data;
pub mod app;
pub mod utils;
