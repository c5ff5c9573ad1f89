//! An inspector for a running tree: it collects what the nodes see, grouped
//! by the occurrence that they were handling, and shows it on two screens.

pub mod data;
pub mod delegate;
pub mod ui;
