//! What is known of a tab and of its active pane when a title is made for it.

use vstd::prelude::*;

verus! {

/// The progress that the program in a pane reports.
#[derive(Clone, Copy, Debug, PartialEq, Eq, Hash, Structural)]
pub enum Progress {
    /// Nothing is reported.
    NoProgress,
    /// So many percent are done.
    Percentage(u8),
    /// The work failed after so many percent.
    Error(u8),
    /// Work is going on, and how much of it is done is not known.
    Indeterminate,
}

/// What is known of a pane.
#[derive(Clone, Debug)]
pub struct PaneInformation {
    pub pane_id: usize,
    pub pane_index: usize,
    pub is_active: bool,
    pub is_zoomed: bool,
    pub has_unseen_output: bool,
    pub left: usize,
    pub top: usize,
    pub width: usize,
    pub height: usize,
    pub pixel_width: usize,
    pub pixel_height: usize,
    pub title: String,
    pub progress: Progress,
}

/// What is known of a tab.
#[derive(Clone, Debug)]
pub struct TabInformation {
    pub tab_id: usize,
    pub tab_index: usize,
    pub is_active: bool,
    pub is_last_active: bool,
    pub active_pane: Option<PaneInformation>,
    pub window_id: usize,
    pub tab_title: String,
}

} // verus!
