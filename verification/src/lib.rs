//! The core of a small desktop file browser: which directory is shown, how
//! its entries are ordered, what is selected, and what the content panel
//! shows of the selection.
//!
//! Nothing here reads the disk or draws a window. The states in [`shelf`]
//! and [`root`] take clicks and key strokes, answer with what has to be
//! fetched, and take the outcome back:
//!
//! - [`listing`] orders entries: directories first, then by name.
//! - [`navigation`] holds the current directory, its listing and the
//!   selection.
//! - [`component`] holds the panels: path header, file list, directory tree
//!   and content viewer, with the downsampling of pictures to a preview.
//! - [`shelf`] and [`root`] join navigation, header and a side panel into one
//!   browser, with a tree and with a flat list.
//! - [`paths`] and [`text`] hold what these ask of paths and names.

pub mod component;
pub mod listing;
pub mod navigation;
pub mod paths;
pub mod root;
pub mod shelf;
pub mod text;
pub mod ui;
