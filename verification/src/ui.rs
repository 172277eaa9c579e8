//! Parts of the window that stand around the panels.

pub mod toolbar;
