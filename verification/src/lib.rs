//! A retained-mode widget tree that is driven by diffs.
//!
//! Application state advances by applying diffs to it. The same diff is
//! threaded through the tree of nodes, each held by its parent through a
//! handle, in five passes: event, lifecycle, update, layout and paint.

pub mod backend;
pub mod contexts;
pub mod debugger;
pub mod diffable;
pub mod dnd;
pub mod either;
pub mod env;
pub mod env_scope;
pub mod event;
pub mod geometry;
pub mod text;
pub mod uri_list;
pub mod widget;
pub mod widget_pod;
