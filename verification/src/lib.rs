//! Reflow scheduling and cross-task synchronization for a browser's
//! script-side page controller.
//!
//! A `Page` owns the script side of one browsing context: it tracks damage to
//! the current layout, decides when a reflow must be dispatched to the layout
//! worker, serializes those requests so that at most one is outstanding, and
//! answers synchronous geometry queries through a blocking RPC handle.

pub mod chan;
pub mod compositor_msg;
pub mod constellation_msg;
pub mod dom;
pub mod geometry;
pub mod layout_interface;
pub mod page;
pub mod script_traits;
pub mod tree;
pub mod url;
