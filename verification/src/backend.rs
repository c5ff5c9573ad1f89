//! What the windowing backend hands to the tree, as plain values.

pub mod dnd;
