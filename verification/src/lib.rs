//! A scrollable list with a single selection: the items, which one is
//! selected, how far the list is scrolled and how many rows the box shows.
//! Drawing and pointer input are left to the caller, which hands the library
//! the decoded events (a wheel step, a scrollbar position, a clicked row).

pub mod listview;
pub mod laws;

pub use listview::{ListState, ListView};
